//! The diff engine: from two pixel grids to a score and a highlighted grid.

use crate::codec::{blend, blend_of};
use crate::pixels::{
    color_distance, diff_rgba3, distance_upto, total_distance, GridView, Pixel, PixelGrid,
};
use vstd::prelude::*;

verus! {

/// Why a comparison gave no verdict.
#[derive(Debug)]
pub enum DiffError {
    /// The bytes of a capture do not decode to an image.
    CorruptImage { message: String },
    /// The two captures differ in width or height.
    DimensionMismatch {
        trusted_width: u32,
        trusted_height: u32,
        testing_width: u32,
        testing_height: u32,
    },
    /// The artifact could not be written.
    ArtifactIO { message: String },
}

/// The colour laid over a pixel that differs: orange, about three quarters
/// opaque.
pub open spec fn highlight() -> Pixel {
    Pixel { r: 255, g: 165, b: 0, a: 188 }
}

/// The highlight colour.
pub fn highlight_rgba() -> (p: Pixel)
    ensures
        p == highlight(),
{
    Pixel { r: 255, g: 165, b: 0, a: 188 }
}

/// The pixel of the artifact at a position where the trusted image holds
/// `trusted` and the testing image `testing`: the trusted pixel where the two
/// have distance 0, else the testing pixel under the highlight.
pub open spec fn marked(trusted: Pixel, testing: Pixel) -> Pixel {
    if color_distance(trusted, testing) > 0 {
        blend_of(testing, highlight())
    } else {
        trusted
    }
}

/// The pixels of the artifact for two pixel rows of one length.
pub open spec fn marked_row(trusted: Seq<Pixel>, testing: Seq<Pixel>) -> Seq<Pixel> {
    Seq::new(trusted.len(), |i: int| marked(trusted[i], testing[i]))
}

/// How far two images are apart: the total colour distance, and the number of
/// pixels it was taken over. The percent difference is
/// `100 * total / (765 * pixels)`.
pub struct ScoreModel {
    pub total: nat,
    pub pixels: nat,
}

/// The score of a comparison. The total never exceeds 765 for each pixel.
#[derive(Clone, Copy, Debug)]
pub struct Score {
    total_distance: u128,
    pixel_count: u64,
}

impl View for Score {
    type V = ScoreModel;

    closed spec fn view(&self) -> ScoreModel {
        ScoreModel { total: self.total_distance as nat, pixels: self.pixel_count as nat }
    }
}

/// Whether a score is over a threshold given in millionths of a percent:
/// whether `100 * total / (765 * pixels)` is greater than
/// `threshold / 1_000_000`, with both sides multiplied out.
pub open spec fn over_threshold(score: ScoreModel, micro_percent: nat) -> bool {
    100_000_000 * score.total > micro_percent * (765 * score.pixels)
}

/// The percent difference of a score in millionths of a percent, rounded
/// down; 0 where no pixel was compared.
pub open spec fn micro_percent_of(score: ScoreModel) -> nat {
    if score.pixels == 0 {
        0
    } else {
        (100_000_000 * score.total) / (765 * score.pixels)
    }
}

impl Score {
    #[verifier::type_invariant]
    spec fn bounded(self) -> bool {
        self.total_distance <= 765 * self.pixel_count
    }

    /// The score of two images that were found equal without decoding them:
    /// distance 0 over no pixels.
    pub fn identical() -> (score: Score)
        ensures
            score@ == (ScoreModel { total: 0, pixels: 0 }),
    {
        Score { total_distance: 0, pixel_count: 0 }
    }

    /// The total colour distance.
    pub fn total_distance(&self) -> (total: u128)
        ensures
            total == self@.total,
            total <= 765 * self@.pixels,
    {
        proof {
            use_type_invariant(self);
        }
        self.total_distance
    }

    /// The number of pixels compared.
    pub fn pixel_count(&self) -> (count: u64)
        ensures
            count == self@.pixels,
    {
        self.pixel_count
    }

    /// Whether the two images have distance 0.
    pub fn is_zero(&self) -> (zero: bool)
        ensures
            zero == (self@.total == 0),
    {
        self.total_distance == 0
    }

    /// The percent difference in millionths of a percent, rounded down.
    pub fn micro_percent(&self) -> (pct: u64)
        ensures
            pct == micro_percent_of(self@),
            pct <= 100_000_000,
    {
        proof {
            use_type_invariant(self);
        }
        if self.pixel_count == 0 {
            0
        } else {
            let full: u128 = 765 * (self.pixel_count as u128);
            let scaled: u128 = 100_000_000 * self.total_distance;
            let pct: u128 = scaled / full;
            assert(pct <= 100_000_000) by (nonlinear_arith)
                requires
                    pct == scaled / full,
                    scaled <= 100_000_000 * full,
                    full > 0,
            ;
            pct as u64
        }
    }

    /// Whether the percent difference is over `threshold`.
    pub fn exceeds(&self, threshold: Threshold) -> (over: bool)
        ensures
            over == over_threshold(self@, threshold@),
    {
        proof {
            use_type_invariant(self);
            use_type_invariant(threshold);
        }
        let full: u128 = 765 * (self.pixel_count as u128);
        let scaled: u128 = 100_000_000 * self.total_distance;
        assert((threshold.micro_percent as u128) * full <= 100_000_000 * full) by (nonlinear_arith)
            requires
                threshold.micro_percent <= 100_000_000,
        ;
        scaled > (threshold.micro_percent as u128) * full
    }
}

/// The largest threshold: 100 percent, in millionths of a percent.
pub const MAX_MICRO_PERCENT: u32 = 100_000_000;

/// A tolerated percent difference between 0 and 100, held in millionths of a
/// percent.
#[derive(Clone, Copy, Debug)]
pub struct Threshold {
    micro_percent: u32,
}

impl View for Threshold {
    type V = nat;

    closed spec fn view(&self) -> nat {
        self.micro_percent as nat
    }
}

impl Threshold {
    #[verifier::type_invariant]
    spec fn in_range(self) -> bool {
        self.micro_percent <= MAX_MICRO_PERCENT
    }

    /// The threshold of `micro_percent` millionths of a percent, if that is
    /// at most 100 percent.
    pub fn new(micro_percent: u32) -> (threshold: Option<Threshold>)
        ensures
            threshold is Some <==> micro_percent <= MAX_MICRO_PERCENT,
            threshold matches Some(t) ==> t@ == micro_percent,
    {
        if micro_percent <= MAX_MICRO_PERCENT {
            Some(Threshold { micro_percent })
        } else {
            None
        }
    }

    /// The threshold that tolerates no difference.
    pub fn zero() -> (threshold: Threshold)
        ensures
            threshold@ == 0,
    {
        Threshold { micro_percent: 0 }
    }

    /// The threshold in millionths of a percent.
    pub fn micro_percent(&self) -> (value: u32)
        ensures
            value == self@,
            value <= MAX_MICRO_PERCENT,
    {
        proof {
            use_type_invariant(self);
        }
        self.micro_percent
    }
}

/// Whether two grids have one shape.
pub open spec fn same_shape(a: GridView, b: GridView) -> bool {
    a.width == b.width && a.height == b.height
}

/// Compares two grids pixel by pixel. Grids of different shapes are refused
/// before any pixel is read. For grids of one shape the score holds the total
/// colour distance over all pixels, and the returned grid holds the trusted
/// pixel wherever the two agree in colour and the highlighted testing pixel
/// wherever they do not.
pub fn get_pct_diff(img_trusted: &PixelGrid, img_testing: &PixelGrid) -> (outcome: Result<
    (Score, PixelGrid),
    DiffError,
>)
    ensures
        !same_shape(img_trusted@, img_testing@) ==> outcome == Err::<(Score, PixelGrid), DiffError>(
            DiffError::DimensionMismatch {
                trusted_width: img_trusted@.width as u32,
                trusted_height: img_trusted@.height as u32,
                testing_width: img_testing@.width as u32,
                testing_height: img_testing@.height as u32,
            },
        ),
        same_shape(img_trusted@, img_testing@) ==> outcome is Ok,
        outcome matches Ok((score, artifact)) ==> {
            &&& score@ == score_of(img_trusted@, img_testing@)
            &&& artifact@ == (GridView {
                width: img_trusted@.width,
                height: img_trusted@.height,
                pixels: marked_row(img_trusted@.pixels, img_testing@.pixels),
            })
        },
{
    let width = img_trusted.width();
    let height = img_trusted.height();
    if width != img_testing.width() || height != img_testing.height() {
        return Err(
            DiffError::DimensionMismatch {
                trusted_width: width,
                trusted_height: height,
                testing_width: img_testing.width(),
                testing_height: img_testing.height(),
            },
        );
    }
    let count: usize = img_trusted.pixel_count();
    let other: usize = img_testing.pixel_count();
    assert(count == other);
    let highlight_rgba = highlight_rgba();
    let mut accum: u128 = 0;
    let mut pixels: Vec<Pixel> = Vec::with_capacity(count);
    let mut i: usize = 0;
    while i < count
        invariant
            count == img_trusted@.pixels.len(),
            count == img_testing@.pixels.len(),
            highlight_rgba == highlight(),
            i <= count,
            accum == distance_upto(img_trusted@.pixels, img_testing@.pixels, i as nat),
            accum <= 765 * i,
            pixels@.len() == i,
            forall|k: int|
                0 <= k < i ==> #[trigger] pixels@[k] == marked(
                    img_trusted@.pixels[k],
                    img_testing@.pixels[k],
                ),
        decreases count - i,
    {
        let px_trusted = img_trusted.pixel_at(i);
        let px_testing = img_testing.pixel_at(i);
        let amount_different = diff_rgba3(px_trusted, px_testing);
        let diffed_px = if amount_different > 0 {
            blend(px_testing, highlight_rgba)
        } else {
            px_trusted
        };
        pixels.push(diffed_px);
        accum = accum + amount_different as u128;
        i += 1;
    }
    assert(pixels@ =~= marked_row(img_trusted@.pixels, img_testing@.pixels));
    proof {
        lemma_distance_bounds(img_trusted@.pixels, img_testing@.pixels, count as nat);
    }
    let score = Score { total_distance: accum, pixel_count: count as u64 };
    Ok((score, PixelGrid::assemble(width, height, pixels)))
}

/// The score of two grids of one shape.
pub open spec fn score_of(trusted: GridView, testing: GridView) -> ScoreModel {
    ScoreModel {
        total: total_distance(trusted.pixels, testing.pixels) as nat,
        pixels: trusted.pixels.len(),
    }
}

/// The distance over a prefix is at least 0 and at most 765 for each pixel.
pub proof fn lemma_distance_bounds(a: Seq<Pixel>, b: Seq<Pixel>, n: nat)
    ensures
        0 <= distance_upto(a, b, n) <= 765 * n,
    decreases n,
{
    if n > 0 {
        lemma_distance_bounds(a, b, (n - 1) as nat);
    }
}

/// The distance over a prefix does not depend on which of the two rows comes
/// first.
pub proof fn lemma_distance_upto_symmetric(a: Seq<Pixel>, b: Seq<Pixel>, n: nat)
    ensures
        distance_upto(a, b, n) == distance_upto(b, a, n),
    decreases n,
{
    if n > 0 {
        lemma_distance_upto_symmetric(a, b, (n - 1) as nat);
    }
}

/// Comparing is symmetric in magnitude: two grids of one shape get the same
/// score, and so the same percent difference, whichever of them is taken as
/// the trusted one.
pub proof fn lemma_score_symmetric(a: GridView, b: GridView)
    requires
        a.pixels.len() == b.pixels.len(),
    ensures
        score_of(a, b) == score_of(b, a),
        micro_percent_of(score_of(a, b)) == micro_percent_of(score_of(b, a)),
{
    lemma_distance_upto_symmetric(a.pixels, b.pixels, a.pixels.len());
}

/// A row and the same row with position `i` changed have, over a prefix, the
/// distance of the old and the new pixel at `i` where the prefix reaches `i`,
/// and else 0.
pub proof fn lemma_distance_of_update(a: Seq<Pixel>, i: int, p: Pixel, n: nat)
    requires
        0 <= i < a.len(),
        n <= a.len(),
    ensures
        distance_upto(a, a.update(i, p), n) == if n > i {
            color_distance(a[i], p)
        } else {
            0
        },
    decreases n,
{
    if n > 0 {
        lemma_distance_of_update(a, i, p, (n - 1) as nat);
    }
}

/// An image against itself has distance 0.
pub proof fn lemma_distance_to_self(a: Seq<Pixel>, n: nat)
    ensures
        distance_upto(a, a, n) == 0,
    decreases n,
{
    if n > 0 {
        lemma_distance_to_self(a, (n - 1) as nat);
    }
}

/// One pixel changed from black to white, in an image of any content
/// elsewhere, gives the distance 765: a percent difference of exactly
/// `100 / pixels`.
pub proof fn lemma_one_pixel_black_to_white(a: Seq<Pixel>, i: int, white: Pixel)
    requires
        0 <= i < a.len(),
        a[i].r == 0 && a[i].g == 0 && a[i].b == 0,
        white.r == 255 && white.g == 255 && white.b == 255,
    ensures
        total_distance(a, a.update(i, white)) == 765,
        100 * total_distance(a, a.update(i, white)) * a.len() == 100 * (765 * a.len()),
        micro_percent_of(
            ScoreModel { total: total_distance(a, a.update(i, white)) as nat, pixels: a.len() },
        ) == 100_000_000nat / a.len(),
{
    lemma_distance_of_update(a, i, white, a.len());
    let n = a.len() as int;
    let t = total_distance(a, a.update(i, white));
    assert(100 * t * n == 100 * (765 * n)) by (nonlinear_arith)
        requires
            t == 765,
    ;
    assert((100_000_000int * 765) / (765 * n) == 100_000_000int / n) by (nonlinear_arith)
        requires
            n > 0,
    ;
}

/// Under the threshold 0 a comparison fails exactly where the distance is
/// not 0.
pub proof fn lemma_zero_threshold(score: ScoreModel)
    ensures
        verdict_of(score, 0) == Verdict::Fail <==> score.total > 0,
{
    let full = 765 * score.pixels;
    assert(0nat * full == 0) by (nonlinear_arith);
}

/// A score over a higher threshold is over every lower one: raising the
/// threshold never turns a pass into a fail.
pub proof fn lemma_threshold_monotone(score: ScoreModel, low: nat, high: nat)
    requires
        low <= high,
    ensures
        over_threshold(score, high) ==> over_threshold(score, low),
{
    assert(low * (765 * score.pixels) <= high * (765 * score.pixels)) by (nonlinear_arith)
        requires
            low <= high,
    ;
}

/// Pass or fail.
#[derive(Clone, Copy, Debug, PartialEq, Eq, Structural)]
pub enum Verdict {
    Pass,
    Fail,
}

/// The verdict for a score under a threshold: fail exactly where the percent
/// difference is over the threshold.
pub open spec fn verdict_of(score: ScoreModel, micro_percent: nat) -> Verdict {
    if over_threshold(score, micro_percent) {
        Verdict::Fail
    } else {
        Verdict::Pass
    }
}

/// The verdict for a score under a threshold.
pub fn judge(score: &Score, threshold: Threshold) -> (verdict: Verdict)
    ensures
        verdict == verdict_of(score@, threshold@),
{
    if score.exceeds(threshold) {
        Verdict::Fail
    } else {
        Verdict::Pass
    }
}

} // verus!
