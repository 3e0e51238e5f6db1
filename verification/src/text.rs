//! Strings as rows of characters: reading them, building them, and the
//! operations on them that the rest of the library needs.

use vstd::prelude::*;
use vstd::string::StrSliceExecFns;

verus! {

/// `String::push` appends the character to the end of the string.
pub assume_specification[ String::push ](s: &mut String, ch: char)
    ensures
        final(s)@ == old(s)@.push(ch),
;

/// The lower-case form of a string, as `str::to_lowercase` gives it.
pub uninterp spec fn lowercase_of(s: Seq<char>) -> Seq<char>;

/// Whether a character has the Unicode property White_Space, as
/// `char::is_whitespace` tells it.
pub uninterp spec fn is_space(ch: char) -> bool;

/// `str::to_lowercase` gives the lower-case form of the string. Claimed:
/// that form depends on the characters alone.
pub assume_specification[ str::to_lowercase ](s: &str) -> (lower: String)
    ensures
        lower@ == lowercase_of(s@),
;

/// `char::is_whitespace` tells whether the character is white space.
/// Claimed: that depends on the character alone.
pub assume_specification[ char::is_whitespace ](ch: char) -> (space: bool)
    ensures
        space == is_space(ch),
;

/// The characters of a string.
pub fn chars_of(s: &str) -> (chars: Vec<char>)
    ensures
        chars@ == s@,
{
    let n: usize = s.unicode_len();
    let mut chars: Vec<char> = Vec::with_capacity(n);
    let mut i: usize = 0;
    while i < n
        invariant
            n == s@.len(),
            i <= n,
            chars@ == s@.take(i as int),
        decreases n - i,
    {
        chars.push(s.get_char(i));
        assert(s@.take(i + 1) =~= s@.take(i as int).push(s@[i as int]));
        i += 1;
    }
    assert(s@.take(n as int) =~= s@);
    chars
}

/// The string made of the characters `chars[from..to]`.
pub fn string_of(chars: &Vec<char>, from: usize, to: usize) -> (s: String)
    requires
        from <= to <= chars@.len(),
    ensures
        s@ == chars@.subrange(from as int, to as int),
{
    let mut s = String::new();
    let mut i: usize = from;
    while i < to
        invariant
            from <= i <= to <= chars@.len(),
            s@ == chars@.subrange(from as int, i as int),
        decreases to - i,
    {
        s.push(chars[i]);
        assert(chars@.subrange(from as int, i + 1) =~= chars@.subrange(from as int, i as int).push(
            chars@[i as int],
        ));
        i += 1;
    }
    s
}

/// Whether `pattern` stands in `s` at position `at`.
pub open spec fn occurs_at(s: Seq<char>, pattern: Seq<char>, at: int) -> bool {
    0 <= at && at + pattern.len() <= s.len() && s.subrange(at, at + pattern.len()) == pattern
}

/// Whether `pattern` stands in `s` at position `at`.
pub fn matches_at(s: &Vec<char>, pattern: &Vec<char>, at: usize) -> (found: bool)
    ensures
        found == occurs_at(s@, pattern@, at as int),
{
    if at > s.len() || pattern.len() > s.len() - at {
        return false;
    }
    let mut k: usize = 0;
    while k < pattern.len()
        invariant
            at + pattern@.len() <= s@.len() <= usize::MAX,
            k <= pattern@.len(),
            forall|j: int| 0 <= j < k ==> s@[at + j] == pattern@[j],
        decreases pattern@.len() - k,
    {
        if s[at + k] != pattern[k] {
            assert(s@.subrange(at as int, at + pattern@.len())[k as int] != pattern@[k as int]);
            return false;
        }
        k += 1;
    }
    assert(s@.subrange(at as int, at + pattern@.len()) =~= pattern@);
    true
}

/// `s` with every occurrence of `pattern` taken out, found from the left and
/// never overlapping. An empty pattern takes nothing out.
pub open spec fn without_all(s: Seq<char>, pattern: Seq<char>) -> Seq<char>
    decreases s.len(),
{
    if s.len() == 0 || pattern.len() == 0 {
        s
    } else if occurs_at(s, pattern, 0) {
        without_all(s.subrange(pattern.len() as int, s.len() as int), pattern)
    } else {
        seq![s[0]] + without_all(s.subrange(1, s.len() as int), pattern)
    }
}

/// `s` with every occurrence of `pattern` taken out.
pub fn remove_all(s: &str, pattern: &str) -> (out: String)
    ensures
        out@ == without_all(s@, pattern@),
{
    let chars = chars_of(s);
    let pat = chars_of(pattern);
    if pat.len() == 0 {
        return string_of(&chars, 0, chars.len());
    }
    let mut out = String::new();
    let mut i: usize = 0;
    assert(chars@.subrange(0, chars@.len() as int) =~= chars@);
    assert(out@ + without_all(chars@, pat@) =~= without_all(chars@, pat@));
    while i < chars.len()
        invariant
            chars@ == s@,
            pat@ == pattern@,
            pat@.len() > 0,
            i <= chars@.len(),
            without_all(s@, pattern@) == out@ + without_all(
                chars@.subrange(i as int, chars@.len() as int),
                pat@,
            ),
        decreases chars@.len() - i,
    {
        let ghost rest = chars@.subrange(i as int, chars@.len() as int);
        if matches_at(&chars, &pat, i) {
            assert(rest.subrange(0, pat@.len() as int) =~= chars@.subrange(
                i as int,
                i + pat@.len(),
            ));
            assert(rest.subrange(pat@.len() as int, rest.len() as int) =~= chars@.subrange(
                i + pat@.len(),
                chars@.len() as int,
            ));
            i += pat.len();
        } else {
            assert(occurs_at(rest, pat@, 0) ==> rest.subrange(0, pat@.len() as int)
                =~= chars@.subrange(i as int, i + pat@.len()));
            assert(rest.subrange(1, rest.len() as int) =~= chars@.subrange(
                i + 1,
                chars@.len() as int,
            ));
            let ghost before = out@;
            out.push(chars[i]);
            assert(before.push(chars@[i as int]) + without_all(
                chars@.subrange(i + 1, chars@.len() as int),
                pat@,
            ) =~= before + (seq![rest[0]] + without_all(rest.subrange(1, rest.len() as int), pat@)));
            i += 1;
        }
    }
    assert(chars@.subrange(i as int, chars@.len() as int).len() == 0);
    assert(out@ + Seq::<char>::empty() =~= out@);
    out
}

/// The pieces of `s` between its commas, in order. A string without a comma
/// is one piece, the empty string too.
pub open spec fn comma_pieces(s: Seq<char>) -> Seq<Seq<char>>
    decreases s.len(),
{
    if s.len() == 0 {
        seq![Seq::<char>::empty()]
    } else {
        let before = comma_pieces(s.drop_last());
        if s.last() == ',' {
            before.push(Seq::<char>::empty())
        } else {
            before.update(before.len() - 1, before.last().push(s.last()))
        }
    }
}

/// The views of a row of strings.
pub open spec fn texts(strings: Seq<String>) -> Seq<Seq<char>> {
    Seq::new(strings.len(), |i: int| strings[i]@)
}

/// Splits a string at its commas.
pub fn split_commas(s: &str) -> (pieces: Vec<String>)
    ensures
        texts(pieces@) == comma_pieces(s@),
{
    let chars = chars_of(s);
    let mut pieces: Vec<String> = Vec::new();
    let mut current = String::new();
    let mut i: usize = 0;
    while i < chars.len()
        invariant
            chars@ == s@,
            i <= chars@.len(),
            texts(pieces@).push(current@) == comma_pieces(chars@.take(i as int)),
        decreases chars@.len() - i,
    {
        let ghost done = chars@.take(i as int);
        let ghost next = chars@.take(i + 1);
        assert(next.drop_last() =~= done);
        assert(next.last() == chars@[i as int]);
        let ghost before = texts(pieces@);
        let ghost word = current@;
        assert(before.push(word).last() == word);
        if chars[i] == ',' {
            pieces.push(current);
            current = String::new();
            assert(texts(pieces@) =~= before.push(word));
        } else {
            current.push(chars[i]);
            assert(before.push(current@) =~= before.push(word).update(
                before.len() as int,
                word.push(chars@[i as int]),
            ));
        }
        i += 1;
    }
    assert(chars@.take(i as int) =~= chars@);
    let ghost before = texts(pieces@);
    pieces.push(current);
    assert(texts(pieces@) =~= before.push(current@));
    pieces
}

/// `items` without repetitions: of strings that read the same, the first
/// stays.
pub open spec fn deduplicated(items: Seq<Seq<char>>) -> Seq<Seq<char>>
    decreases items.len(),
{
    if items.len() == 0 {
        items
    } else {
        let before = deduplicated(items.drop_last());
        if before.contains(items.last()) {
            before
        } else {
            before.push(items.last())
        }
    }
}

/// What is left without repetitions holds no string twice, and holds
/// exactly the strings that were there.
pub proof fn lemma_deduplicated(items: Seq<Seq<char>>)
    ensures
        deduplicated(items).no_duplicates(),
        forall|text: Seq<char>| deduplicated(items).contains(text) <==> items.contains(text),
    decreases items.len(),
{
    if items.len() > 0 {
        let rest = items.drop_last();
        let before = deduplicated(rest);
        lemma_deduplicated(rest);
        assert forall|text: Seq<char>| deduplicated(items).contains(text) <==> items.contains(
            text,
        ) by {
            if items.contains(text) {
                let at = choose|at: int| 0 <= at < items.len() && items[at] == text;
                if at < rest.len() {
                    assert(rest[at] == text);
                    assert(rest.contains(text));
                    assert(before.contains(text));
                    let k = choose|k: int| 0 <= k < before.len() && before[k] == text;
                    assert(deduplicated(items)[k] == text);
                } else {
                    assert(text == items.last());
                    if !before.contains(text) {
                        assert(deduplicated(items)[before.len() as int] == text);
                    }
                }
            }
            if deduplicated(items).contains(text) {
                let k = choose|k: int|
                    0 <= k < deduplicated(items).len() && deduplicated(items)[k] == text;
                if k < before.len() {
                    assert(before[k] == text);
                    assert(before.contains(text));
                    assert(rest.contains(text));
                    let at = choose|at: int| 0 <= at < rest.len() && rest[at] == text;
                    assert(items[at] == text);
                } else {
                    assert(text == items.last());
                    assert(items[items.len() - 1] == text);
                }
            }
        }
    }
}

/// Drops the repetitions from a list of strings.
pub fn without_repetitions(items: &Vec<String>) -> (out: Vec<String>)
    ensures
        texts(out@) == deduplicated(texts(items@)),
{
    let mut out: Vec<String> = Vec::new();
    let mut i: usize = 0;
    assert(texts(items@).take(0) =~= Seq::<Seq<char>>::empty());
    assert(texts(out@) =~= Seq::<Seq<char>>::empty());
    while i < items.len()
        invariant
            i <= items@.len(),
            texts(out@) == deduplicated(texts(items@).take(i as int)),
        decreases items@.len() - i,
    {
        let ghost done = texts(items@).take(i as int);
        let ghost next = texts(items@).take(i + 1);
        assert(next.drop_last() =~= done);
        assert(next.last() == items@[i as int]@);
        let ghost before = texts(out@);
        if !contains_text(&out, &items[i]) {
            out.push(items[i].clone());
            assert(texts(out@) =~= before.push(items@[i as int]@));
        }
        i += 1;
    }
    assert(texts(items@).take(i as int) =~= texts(items@));
    out
}

/// Whether one of `items` reads `wanted`.
pub fn contains_text(items: &Vec<String>, wanted: &String) -> (found: bool)
    ensures
        found == texts(items@).contains(wanted@),
{
    let mut i: usize = 0;
    while i < items.len()
        invariant
            i <= items@.len(),
            forall|k: int| 0 <= k < i ==> texts(items@)[k] != wanted@,
        decreases items@.len() - i,
    {
        if items[i] == *wanted {
            assert(texts(items@)[i as int] == wanted@);
            return true;
        }
        i += 1;
    }
    false
}

/// `first` followed by `second`.
pub fn joined(first: &str, second: &str) -> (out: String)
    ensures
        out@ == first@ + second@,
{
    let mut out = first.to_string();
    let tail = chars_of(second);
    let mut i: usize = 0;
    while i < tail.len()
        invariant
            tail@ == second@,
            i <= tail@.len(),
            out@ == first@ + tail@.take(i as int),
        decreases tail@.len() - i,
    {
        out.push(tail[i]);
        assert(first@ + tail@.take(i + 1) =~= (first@ + tail@.take(i as int)).push(tail@[i as int]));
        i += 1;
    }
    assert(tail@.take(i as int) =~= tail@);
    out
}

} // verus!
