//! Visual regression testing: capture normalisation and pixel diffing.
//!
//! The browser, the file system and the network stay with the caller. This
//! library decides what the browser is asked to do and in which order, turns
//! two captures into a score, a verdict and a highlighted artifact, and states
//! each of those decisions as a contract.

pub mod browser;
pub mod codec;
pub mod config;
pub mod diff;
pub mod pixels;
pub mod route;
pub mod text;
pub mod url_utils;

use crate::codec::{
    decode_png, encode_png, image_error_text, md5_digest, md5_of, png_decoding, png_encoding,
};
use crate::diff::{
    get_pct_diff, judge, marked_row, same_shape, score_of, verdict_of, DiffError, Score,
    ScoreModel, Threshold, Verdict,
};
use crate::pixels::{pixels_of_raw, raw_of_pixels, GridView, PixelGrid};
use vstd::prelude::*;
use vstd::slice::slice_to_vec;

verus! {

/// Marks a route that was left out on purpose: it was neither captured nor
/// compared.
#[derive(Debug)]
pub struct SkipError {}

impl SkipError {
    /// The mark of a skipped route.
    pub fn new() -> (skip: SkipError)
        ensures
            skip == (SkipError {  }),
    {
        SkipError {  }
    }

    /// The text shown for a skipped route.
    pub fn message(&self) -> (text: String)
        ensures
            text@ == "skip"@,
    {
        "skip".to_string()
    }
}

/// What a comparison of two captures yields: the score, the verdict, and the
/// PNG bytes of the artifact.
#[derive(Debug)]
pub struct DiffResult {
    pub score: Score,
    pub verdict: Verdict,
    pub artifact: Vec<u8>,
}

/// Whether two captures count as the same without being decoded: equal
/// length and equal MD5 digest.
pub open spec fn same_capture(trusted: Seq<u8>, testing: Seq<u8>) -> bool {
    trusted.len() == testing.len() && md5_of(trusted) == md5_of(testing)
}

/// Whether two byte strings are equal.
pub fn same_bytes(a: &[u8], b: &[u8]) -> (same: bool)
    ensures
        same == (a@ == b@),
{
    if a.len() != b.len() {
        return false;
    }
    let mut i: usize = 0;
    while i < a.len()
        invariant
            a@.len() == b@.len(),
            i <= a@.len(),
            forall|k: int| 0 <= k < i ==> a@[k] == b@[k],
        decreases a@.len() - i,
    {
        if a[i] != b[i] {
            return false;
        }
        i += 1;
    }
    assert(a@ =~= b@);
    true
}

/// The MD5 digest of a capture.
pub fn fingerprint(bytes: &[u8]) -> (digest: Vec<u8>)
    ensures
        digest@ == md5_of(bytes@),
{
    md5_digest(bytes)
}

/// Whether two captures count as the same without being decoded.
pub fn images_identical(trusted: &[u8], testing: &[u8]) -> (same: bool)
    ensures
        same == same_capture(trusted@, testing@),
        trusted@ == testing@ ==> same,
{
    if trusted.len() != testing.len() {
        return false;
    }
    let digest_trusted = fingerprint(trusted);
    let digest_testing = fingerprint(testing);
    same_bytes(digest_trusted.as_slice(), digest_testing.as_slice())
}

/// The grid that a capture decodes to: the decoder's shape and pixels, where
/// the bytes decode and hold four bytes for each pixel of that shape.
pub open spec fn decoded_grid(bytes: Seq<u8>) -> Option<GridView> {
    match png_decoding(bytes) {
        Some((width, height, raw)) => if raw.len() == 4 * (width as nat * height as nat) {
            Some(
                GridView {
                    width: width as nat,
                    height: height as nat,
                    pixels: pixels_of_raw(raw),
                },
            )
        } else {
            None
        },
        None => None,
    }
}

/// Decodes a capture into a pixel grid. Bytes that do not decode, or that
/// decode to a pixel buffer that does not fit its shape, are corrupt.
pub fn decode_capture(bytes: &[u8]) -> (outcome: Result<PixelGrid, DiffError>)
    ensures
        match decoded_grid(bytes@) {
            Some(grid) => outcome matches Ok(g) && g@ == grid,
            None => outcome matches Err(DiffError::CorruptImage { .. }),
        },
{
    match decode_png(bytes) {
        Ok((width, height, raw)) => match PixelGrid::from_raw(width, height, &raw) {
            Some(grid) => Ok(grid),
            None => Err(
                DiffError::CorruptImage {
                    message: "pixel buffer does not fit the image's shape".to_string(),
                },
            ),
        },
        Err(error) => Err(DiffError::CorruptImage { message: image_error_text(&error) }),
    }
}

/// The PNG file of a grid, where the grid can be encoded.
pub open spec fn encoded_grid(grid: GridView) -> Option<Seq<u8>> {
    if 4 * grid.pixels.len() > usize::MAX {
        None
    } else {
        png_encoding(grid.width as u32, grid.height as u32, raw_of_pixels(grid.pixels))
    }
}

/// Encodes a grid as a PNG file. A grid whose raw bytes cannot be addressed
/// on this machine, or that the encoder refuses, cannot be written.
pub fn encode_capture(grid: &PixelGrid) -> (outcome: Result<Vec<u8>, DiffError>)
    ensures
        match encoded_grid(grid@) {
            Some(bytes) => outcome matches Ok(encoded) && encoded@ == bytes,
            None => outcome matches Err(DiffError::ArtifactIO { .. }),
        },
{
    let count: usize = grid.pixel_count();
    if count > usize::MAX / 4 {
        return Err(
            DiffError::ArtifactIO { message: "the image is too large to encode".to_string() },
        );
    }
    let raw = grid.to_raw();
    match encode_png(grid.width(), grid.height(), raw.as_slice()) {
        Ok(encoded) => Ok(encoded),
        Err(error) => Err(DiffError::ArtifactIO { message: image_error_text(&error) }),
    }
}

/// What comparing two grids under a threshold must yield.
///
/// Grids of different shapes give a dimension mismatch. Else the artifact is
/// the encoded grid of marked pixels; where it cannot be encoded the
/// comparison fails on the artifact. Else the score is the total distance
/// over all pixels, the verdict is the one the threshold gives for that
/// score, and the artifact is the encoding.
pub open spec fn is_grid_comparison(
    trusted: GridView,
    testing: GridView,
    micro_percent: nat,
    outcome: Result<DiffResult, DiffError>,
) -> bool {
    if !same_shape(trusted, testing) {
        outcome == Err::<DiffResult, DiffError>(
            DiffError::DimensionMismatch {
                trusted_width: trusted.width as u32,
                trusted_height: trusted.height as u32,
                testing_width: testing.width as u32,
                testing_height: testing.height as u32,
            },
        )
    } else {
        match encoded_grid(
            GridView {
                width: trusted.width,
                height: trusted.height,
                pixels: marked_row(trusted.pixels, testing.pixels),
            },
        ) {
            None => outcome matches Err(DiffError::ArtifactIO { .. }),
            Some(bytes) => {
                &&& outcome matches Ok(result)
                &&& result.score@ == score_of(trusted, testing)
                &&& result.verdict == verdict_of(result.score@, micro_percent)
                &&& result.artifact@ == bytes
            },
        }
    }
}

/// Compares two decoded captures under a threshold.
pub fn compare_grids(trusted: &PixelGrid, testing: &PixelGrid, threshold: Threshold) -> (outcome:
    Result<DiffResult, DiffError>)
    ensures
        is_grid_comparison(trusted@, testing@, threshold@, outcome),
{
    let (score, marked_grid) = get_pct_diff(trusted, testing)?;
    let artifact = encode_capture(&marked_grid)?;
    Ok(DiffResult { score, verdict: judge(&score, threshold), artifact })
}

/// Decides whether two captures show the same page within a threshold.
///
/// Captures of equal length and digest are declared identical without being
/// decoded: the score is zero, the verdict is a pass, and the artifact is the
/// trusted capture itself. Any other pair is decoded and compared grid by
/// grid; a capture that does not decode is corrupt.
pub fn compare(trusted: &[u8], testing: &[u8], threshold: Threshold) -> (outcome: Result<
    DiffResult,
    DiffError,
>)
    ensures
        same_capture(trusted@, testing@) ==> {
            &&& outcome matches Ok(result)
            &&& result.score@ == (ScoreModel { total: 0, pixels: 0 })
            &&& result.verdict == Verdict::Pass
            &&& result.artifact@ == trusted@
        },
        !same_capture(trusted@, testing@) ==> match (
            decoded_grid(trusted@),
            decoded_grid(testing@),
        ) {
            (Some(a), Some(b)) => is_grid_comparison(a, b, threshold@, outcome),
            _ => outcome matches Err(DiffError::CorruptImage { .. }),
        },
        trusted@ == testing@ ==> {
            &&& outcome matches Ok(result)
            &&& result.score@.total == 0
            &&& result.verdict == Verdict::Pass
        },
{
    if images_identical(trusted, testing) {
        return Ok(
            DiffResult {
                score: Score::identical(),
                verdict: Verdict::Pass,
                artifact: slice_to_vec(trusted),
            },
        );
    }
    let before = decode_capture(trusted)?;
    let after = decode_capture(testing)?;
    compare_grids(&before, &after, threshold)
}

} // verus!
