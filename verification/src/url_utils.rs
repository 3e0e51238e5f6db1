//! Names for routes, and where the routes of a run come from.

use crate::config::Config;
use crate::text::{
    chars_of, comma_pieces, is_space, joined, lowercase_of, split_commas, string_of, texts,
};
use vstd::prelude::*;

verus! {

/// The address of one page in a sitemap.
#[derive(Debug, Default)]
pub struct Loc {
    pub name: String,
}

/// One entry of a sitemap.
#[derive(Debug)]
pub struct SitemapUrl {
    pub loc: Loc,
}

/// A sitemap: its entries in the order of the document.
#[derive(Debug)]
pub struct UrlSet {
    pub urls: Vec<SitemapUrl>,
}

/// The addresses that a sitemap lists, in order.
pub open spec fn locations(urlset: UrlSet) -> Seq<Seq<char>> {
    Seq::new(urlset.urls@.len(), |i: int| urlset.urls@[i].loc.name@)
}

/// The addresses that a sitemap lists, in order.
pub fn url_set_to_urls(urlset: UrlSet) -> (urls: Vec<String>)
    ensures
        texts(urls@) == locations(urlset),
{
    let mut urls: Vec<String> = Vec::with_capacity(urlset.urls.len());
    let mut i: usize = 0;
    while i < urlset.urls.len()
        invariant
            i <= urlset.urls@.len(),
            urls@.len() == i,
            forall|k: int| 0 <= k < i ==> (#[trigger] urls@[k])@ == urlset.urls@[k].loc.name@,
        decreases urlset.urls@.len() - i,
    {
        urls.push(urlset.urls[i].loc.name.clone());
        i += 1;
    }
    assert(texts(urls@) =~= locations(urlset));
    urls
}

/// `s` with each backslash that a full stop follows replaced, together with
/// that full stop, by one underscore.
pub open spec fn escaped_dots_replaced(s: Seq<char>) -> Seq<char>
    decreases s.len(),
{
    if s.len() == 0 {
        s
    } else if s.len() >= 2 && s[0] == '\\' && s[1] == '.' {
        seq!['_'] + escaped_dots_replaced(s.subrange(2, s.len() as int))
    } else {
        seq![s[0]] + escaped_dots_replaced(s.subrange(1, s.len() as int))
    }
}

/// `s` with each slash replaced by an underscore.
pub open spec fn slashes_replaced(s: Seq<char>) -> Seq<char> {
    Seq::new(
        s.len(),
        |i: int|
            if s[i] == '/' {
                '_'
            } else {
                s[i]
            },
    )
}

/// `s` without the white space at its start.
pub open spec fn trim_start(s: Seq<char>) -> Seq<char>
    decreases s.len(),
{
    if s.len() > 0 && is_space(s[0]) {
        trim_start(s.drop_first())
    } else {
        s
    }
}

/// `s` without the white space at its end.
pub open spec fn trim_end(s: Seq<char>) -> Seq<char>
    decreases s.len(),
{
    if s.len() > 0 && is_space(s.last()) {
        trim_end(s.drop_last())
    } else {
        s
    }
}

/// `s` without the white space at its start and at its end.
pub open spec fn trimmed(s: Seq<char>) -> Seq<char> {
    trim_end(trim_start(s))
}

/// Whether a slug names the homepage: the empty slug and the slug `/` do.
pub open spec fn is_homepage(slug: Seq<char>) -> bool {
    slug.len() == 0 || (slug.len() == 1 && slug[0] == '/')
}

/// The file-name token for a slug: `HOMEPAGE` for the homepage; else the
/// slug in lower case, with escaped full stops and slashes turned into
/// underscores, and trimmed.
pub open spec fn slug_name(slug: Seq<char>) -> Seq<char> {
    if is_homepage(slug) {
        "HOMEPAGE"@
    } else {
        trimmed(slashes_replaced(escaped_dots_replaced(lowercase_of(slug))))
    }
}

/// Whether a string holds no slash.
pub open spec fn slash_free(s: Seq<char>) -> bool {
    forall|i: int| 0 <= i < s.len() ==> s[i] != '/'
}

/// Whether a string holds no backslash with a full stop after it.
pub open spec fn escaped_dot_free(s: Seq<char>) -> bool {
    forall|i: int| 0 <= i < s.len() - 1 ==> !(#[trigger] s[i] == '\\' && s[i + 1] == '.')
}

/// Whether a string is already a name: not empty, in lower case, without
/// slashes and escaped full stops, and without white space at either end.
pub open spec fn is_normalized(s: Seq<char>) -> bool {
    &&& s.len() > 0
    &&& lowercase_of(s) == s
    &&& slash_free(s)
    &&& escaped_dot_free(s)
    &&& !is_space(s[0])
    &&& !is_space(s.last())
}

proof fn lemma_trim_start_is_suffix(s: Seq<char>)
    ensures
        exists|from: int| 0 <= from <= s.len() && trim_start(s) == s.subrange(from, s.len() as int),
    decreases s.len(),
{
    if s.len() > 0 && is_space(s[0]) {
        let rest = s.drop_first();
        lemma_trim_start_is_suffix(rest);
        let from = choose|from: int|
            0 <= from <= rest.len() && trim_start(rest) == rest.subrange(from, rest.len() as int);
        assert(rest.subrange(from, rest.len() as int) =~= s.subrange(from + 1, s.len() as int));
    } else {
        assert(s =~= s.subrange(0, s.len() as int));
    }
}

proof fn lemma_trim_end_is_prefix(s: Seq<char>)
    ensures
        exists|to: int| 0 <= to <= s.len() && trim_end(s) == s.subrange(0, to),
    decreases s.len(),
{
    if s.len() > 0 && is_space(s.last()) {
        let rest = s.drop_last();
        lemma_trim_end_is_prefix(rest);
        let to = choose|to: int| 0 <= to <= rest.len() && trim_end(rest) == rest.subrange(0, to);
        assert(rest.subrange(0, to) =~= s.subrange(0, to));
    } else {
        assert(s =~= s.subrange(0, s.len() as int));
    }
}

/// Trimming a string without slashes gives a string without slashes.
pub proof fn lemma_trimmed_slash_free(s: Seq<char>)
    requires
        slash_free(s),
    ensures
        slash_free(trimmed(s)),
{
    lemma_trim_start_is_suffix(s);
    let mid = trim_start(s);
    lemma_trim_end_is_prefix(mid);
}

/// The name of a slug never holds a slash.
pub proof fn lemma_name_slash_free(slug: Seq<char>)
    ensures
        slash_free(slug_name(slug)),
{
    if is_homepage(slug) {
        reveal_strlit("HOMEPAGE");
    } else {
        lemma_trimmed_slash_free(slashes_replaced(escaped_dots_replaced(lowercase_of(slug))));
    }
}

/// The empty slug and the slug `/` both get the name `HOMEPAGE`.
pub proof fn lemma_homepage_names()
    ensures
        slug_name(""@) == "HOMEPAGE"@,
        slug_name("/"@) == "HOMEPAGE"@,
{
    reveal_strlit("");
    reveal_strlit("/");
}

/// A string without escaped full stops is left as it is.
pub proof fn lemma_no_escaped_dots(s: Seq<char>)
    requires
        escaped_dot_free(s),
    ensures
        escaped_dots_replaced(s) == s,
    decreases s.len(),
{
    if s.len() > 0 {
        assert(!(s[0int] == '\\' && s[0int + 1] == '.') || s.len() < 2);
        let rest = s.subrange(1, s.len() as int);
        assert forall|i: int| 0 <= i < rest.len() - 1 implies !(#[trigger] rest[i] == '\\' && rest[i
            + 1] == '.') by {
            assert(rest[i] == s[i + 1]);
            assert(rest[i + 1] == s[i + 1 + 1]);
        }
        lemma_no_escaped_dots(rest);
        assert(seq![s[0]] + rest =~= s);
    }
}

/// Naming is idempotent on names: a string that is already a name is its own
/// name, and so a name that is normalized is the name of itself.
pub proof fn lemma_name_of_normalized(s: Seq<char>)
    requires
        is_normalized(s),
    ensures
        slug_name(s) == s,
        slug_name(slug_name(s)) == slug_name(s),
{
    assert(s[0] != '/');
    lemma_no_escaped_dots(s);
    assert(slashes_replaced(s) =~= s);
}

/// The file-name token for a route slug.
pub fn get_name_from_slug(slug: &String) -> (name: String)
    ensures
        name@ == slug_name(slug@),
        is_homepage(slug@) ==> name@ == "HOMEPAGE"@,
        slash_free(name@),
{
    proof {
        lemma_name_slash_free(slug@);
    }
    let given = chars_of(slug.as_str());
    if given.len() == 0 || (given.len() == 1 && given[0] == '/') {
        return "HOMEPAGE".to_string();
    }
    let lower = slug.as_str().to_lowercase();
    let chars = chars_of(lower.as_str());
    let plain = replace_escaped_dots(&chars);
    let flat = replace_slashes(&plain);
    let (from, to) = trim_bounds(&flat);
    string_of(&flat, from, to)
}

/// Replaces each escaped full stop by an underscore.
pub fn replace_escaped_dots(chars: &Vec<char>) -> (out: Vec<char>)
    ensures
        out@ == escaped_dots_replaced(chars@),
{
    let n: usize = chars.len();
    let mut out: Vec<char> = Vec::with_capacity(n);
    let mut i: usize = 0;
    assert(chars@.subrange(0, n as int) =~= chars@);
    assert(out@ + escaped_dots_replaced(chars@) =~= escaped_dots_replaced(chars@));
    while i < n
        invariant
            n == chars@.len(),
            i <= n,
            escaped_dots_replaced(chars@) == out@ + escaped_dots_replaced(
                chars@.subrange(i as int, n as int),
            ),
        decreases n - i,
    {
        let ghost rest = chars@.subrange(i as int, n as int);
        let ghost before = out@;
        if chars[i] == '\\' && i + 1 < n && chars[i + 1] == '.' {
            assert(rest[0] == '\\' && rest[1] == '.');
            assert(rest.subrange(2, rest.len() as int) =~= chars@.subrange(i + 2, n as int));
            out.push('_');
            assert(before.push('_') + escaped_dots_replaced(chars@.subrange(i + 2, n as int))
                =~= before + (seq!['_'] + escaped_dots_replaced(
                rest.subrange(2, rest.len() as int),
            )));
            i += 2;
        } else {
            assert(rest[0] == chars@[i as int]);
            assert(rest.len() >= 2 ==> rest[1] == chars@[i + 1]);
            assert(rest.subrange(1, rest.len() as int) =~= chars@.subrange(i + 1, n as int));
            out.push(chars[i]);
            assert(before.push(rest[0]) + escaped_dots_replaced(chars@.subrange(i + 1, n as int))
                =~= before + (seq![rest[0]] + escaped_dots_replaced(
                rest.subrange(1, rest.len() as int),
            )));
            i += 1;
        }
    }
    assert(out@ + Seq::<char>::empty() =~= out@);
    out
}

/// Replaces each slash by an underscore.
pub fn replace_slashes(chars: &Vec<char>) -> (out: Vec<char>)
    ensures
        out@ == slashes_replaced(chars@),
{
    let n: usize = chars.len();
    let mut out: Vec<char> = Vec::with_capacity(n);
    let mut i: usize = 0;
    while i < n
        invariant
            n == chars@.len(),
            i <= n,
            out@.len() == i,
            forall|k: int| 0 <= k < i ==> #[trigger] out@[k] == slashes_replaced(chars@)[k],
        decreases n - i,
    {
        if chars[i] == '/' {
            out.push('_');
        } else {
            out.push(chars[i]);
        }
        i += 1;
    }
    assert(out@ =~= slashes_replaced(chars@));
    out
}

/// Where the trimmed form of a string starts and ends in it.
pub fn trim_bounds(chars: &Vec<char>) -> (bounds: (usize, usize))
    ensures
        bounds.0 <= bounds.1 <= chars@.len(),
        chars@.subrange(bounds.0 as int, bounds.1 as int) == trimmed(chars@),
{
    let n: usize = chars.len();
    let mut from: usize = 0;
    assert(chars@.subrange(0, n as int) =~= chars@);
    while from < n && chars[from].is_whitespace()
        invariant
            n == chars@.len(),
            from <= n,
            trim_start(chars@) == trim_start(chars@.subrange(from as int, n as int)),
        decreases n - from,
    {
        assert(chars@.subrange(from as int, n as int).drop_first() =~= chars@.subrange(
            from + 1,
            n as int,
        ));
        from += 1;
    }
    let mut to: usize = n;
    while to > from && chars[to - 1].is_whitespace()
        invariant
            n == chars@.len(),
            from <= to <= n,
            trim_start(chars@) == chars@.subrange(from as int, n as int),
            trimmed(chars@) == trim_end(chars@.subrange(from as int, to as int)),
        decreases to,
    {
        assert(chars@.subrange(from as int, to as int).drop_last() =~= chars@.subrange(
            from as int,
            to - 1,
        ));
        to -= 1;
    }
    (from, to)
}

/// Where the routes of a run come from.
#[derive(Debug)]
pub enum RouteSource {
    /// From the sitemap at this address.
    Sitemap { location: String },
    /// From this list.
    Listed { routes: Vec<String> },
}

/// Whether the configured routes ask for the sitemap.
pub open spec fn wants_sitemap(routes: Seq<char>) -> bool {
    routes == "sitemap"@
}

/// Where the routes of a run come from: the sitemap of the trusted origin
/// where the configuration says `sitemap`, else the configured routes, split
/// at their commas.
pub fn get_urls(config: &Config) -> (source: RouteSource)
    ensures
        wants_sitemap(config.routes@) ==> (source matches RouteSource::Sitemap { location }
            && location@ == config.trusted@ + "sitemap.xml"@),
        !wants_sitemap(config.routes@) ==> (source matches RouteSource::Listed { routes }
            && texts(routes@) == comma_pieces(config.routes@)),
{
    if config.routes == "sitemap".to_string() {
        RouteSource::Sitemap { location: joined(config.trusted.as_str(), "sitemap.xml") }
    } else {
        RouteSource::Listed { routes: split_commas(config.routes.as_str()) }
    }
}

} // verus!
