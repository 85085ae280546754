//! Images: shrinking PNG files and keeping only results that pay off.

use vstd::prelude::*;

verus! {

/// The image formats a skin may hold.
#[derive(Debug, Clone, Copy, PartialEq, Eq, Hash, Structural)]
pub enum ImageKind {
    Png,
    Jpeg,
}

/// Which ancillary PNG chunks the optimiser strips.
#[derive(Debug, Clone, Copy, PartialEq, Eq, Hash, Structural)]
pub enum StripMode {
    /// Keep every chunk.
    Nothing,
    /// Strip every chunk that does not affect how the image is displayed.
    Safe,
    /// Strip every ancillary chunk.
    All,
}

/// The settings handed to the PNG optimiser.
#[derive(Debug, Clone, Copy, PartialEq, Eq, Hash, Structural)]
pub struct PngOptions {
    /// The optimisation preset the other settings start from (0 to 6).
    pub preset: u8,
    /// Repair decoding errors instead of failing.
    pub fix_errors: bool,
    /// Allow the colour of fully transparent pixels to change.
    pub optimize_alpha: bool,
    /// Which chunks to strip.
    pub strip: StripMode,
    /// Reduce 16-bit channels to 8 bits.
    pub scale_16: bool,
    /// The libdeflate compression level (0 to 12).
    pub compression: u8,
    /// Pick filters by a fast estimate.
    pub fast_evaluation: bool,
}

/// The PNG settings for a given image quality: lossless except that 16-bit
/// channels are scaled to 8 bits unless the quality is 100.
pub open spec fn osk_png_options(quality: u8) -> PngOptions {
    PngOptions {
        preset: 3,
        fix_errors: true,
        optimize_alpha: true,
        strip: StripMode::Safe,
        scale_16: quality != 100,
        compression: 12,
        fast_evaluation: true,
    }
}

/// The settings the optimiser uses for PNG files at a given image quality.
pub fn png_options(quality: u8) -> (r: PngOptions)
    ensures
        r == osk_png_options(quality),
{
    PngOptions {
        preset: 3,
        fix_errors: true,
        optimize_alpha: true,
        strip: StripMode::Safe,
        scale_16: quality != 100,
        compression: 12,
        fast_evaluation: true,
    }
}

/// The error type of `oxipng`.
#[verifier::external_type_specification]
#[verifier::external_body]
pub struct ExPngError(oxipng::PngError);

/// What `oxipng::optimize_from_memory` produces from `data` with the given
/// settings: `None` where it fails.
pub uninterp spec fn png_optimized(data: Seq<u8>, options: PngOptions) -> Option<Seq<u8>>;

/// Whether `b` begins with the eight-byte PNG signature.
pub open spec fn has_png_signature(b: Seq<u8>) -> bool {
    &&& b.len() >= 8
    &&& b[0] == 0x89 && b[1] == 0x50 && b[2] == 0x4E && b[3] == 0x47
    &&& b[4] == 0x0D && b[5] == 0x0A && b[6] == 0x1A && b[7] == 0x0A
}

/// The big-endian 32-bit number in the four bytes of `b` from `at` on.
pub open spec fn be_u32_at(b: Seq<u8>, at: int) -> int {
    b[at] * 0x1000000 + b[at + 1] * 0x10000 + b[at + 2] * 0x100 + b[at + 3]
}

/// Whether the four bytes of `b` from `at` on are `c0 c1 c2 c3`.
pub open spec fn bytes_are(b: Seq<u8>, at: int, c0: u8, c1: u8, c2: u8, c3: u8) -> bool {
    b[at] == c0 && b[at + 1] == c1 && b[at + 2] == c2 && b[at + 3] == c3
}

/// Whether a chunk type at `at` names an APNG frame chunk (`fcTL` or `fdAT`).
pub open spec fn is_frame_chunk(b: Seq<u8>, at: int) -> bool {
    bytes_are(b, at, 0x66, 0x63, 0x54, 0x4C) || bytes_are(b, at, 0x66, 0x64, 0x41, 0x54)
}

/// Walking the chunks from `at` on as a PNG reader does (4-byte length, 4-byte type,
/// data, 4-byte checksum), up to `IEND` or to a chunk that does not fit: whether every
/// frame chunk met on the way holds at least the 4 bytes of its sequence number.
pub open spec fn frame_chunks_hold_sequence_from(b: Seq<u8>, at: nat) -> bool
    decreases b.len() - at,
{
    if at + 4 > b.len() {
        true
    } else if b.len() < at + 12 + be_u32_at(b, at as int) {
        true
    } else if bytes_are(b, at + 4int, 0x49, 0x45, 0x4E, 0x44) {
        true
    } else if is_frame_chunk(b, at + 4int) && be_u32_at(b, at as int) < 4 {
        false
    } else {
        frame_chunks_hold_sequence_from(b, (at + 12 + be_u32_at(b, at as int)) as nat)
    }
}

/// Whether every APNG frame chunk of a PNG file holds its sequence number; a file
/// without the PNG signature is never walked.
pub open spec fn frame_chunks_hold_sequence(b: Seq<u8>) -> bool {
    has_png_signature(b) ==> frame_chunks_hold_sequence_from(b, 8)
}

/// Checks `frame_chunks_hold_sequence`.
pub fn frame_chunks_sound(b: &[u8]) -> (r: bool)
    ensures
        r == frame_chunks_hold_sequence(b@),
{
    if !(b.len() >= 8 && b[0] == 0x89 && b[1] == 0x50 && b[2] == 0x4E && b[3] == 0x47 && b[4] == 0x0D
        && b[5] == 0x0A && b[6] == 0x1A && b[7] == 0x0A) {
        return true;
    }
    let mut at: usize = 8;
    loop
        invariant
            at <= b.len(),
            frame_chunks_hold_sequence(b@) == frame_chunks_hold_sequence_from(b@, at as nat),
        decreases b.len() - at,
    {
        if b.len() - at < 4 {
            return true;
        }
        let length: u64 = (b[at] as u64) * 0x1000000 + (b[at + 1] as u64) * 0x10000 + (b[at + 2] as u64)
            * 0x100 + (b[at + 3] as u64);
        assert(length == be_u32_at(b@, at as int));
        if (((b.len() - at) as u64) < 12 + length) {
            return true;
        }
        if b[at + 4] == 0x49 && b[at + 5] == 0x45 && b[at + 6] == 0x4E && b[at + 7] == 0x44 {
            return true;
        }
        let frame = (b[at + 4] == 0x66 && b[at + 5] == 0x63 && b[at + 6] == 0x54 && b[at + 7] == 0x4C)
            || (b[at + 4] == 0x66 && b[at + 5] == 0x64 && b[at + 6] == 0x41 && b[at + 7] == 0x54);
        if frame && length < 4 {
            return false;
        }
        at = at + 12 + (length as usize);
    }
}

/// Calls `oxipng::optimize_from_memory` with the given settings laid over
/// `oxipng::Options::from_preset(options.preset)`. The result, success or failure,
/// is `png_optimized` of the data and the settings. libdeflate accepts levels up to 12.
/// The reader takes a sequence number from the first 4 bytes of each frame chunk it
/// keeps without checking the chunk's length (it keeps them unless every ancillary
/// chunk is stripped), so such a chunk must hold them. Running out of memory on a file
/// that declares a huge image is not ruled out.
#[verifier::external_body]
fn oxipng_optimize(data: &[u8], options: &PngOptions) -> (r: Result<Vec<u8>, oxipng::PngError>)
    requires
        options.compression <= 12,
        options.strip != StripMode::All ==> frame_chunks_hold_sequence(data@),
    ensures
        r matches Ok(out) ==> png_optimized(data@, *options) == Some(out@),
        r is Err ==> png_optimized(data@, *options) is None,
{
    let strip = match options.strip {
        StripMode::Nothing => oxipng::StripChunks::None,
        StripMode::Safe => oxipng::StripChunks::Safe,
        StripMode::All => oxipng::StripChunks::All,
    };
    let opts = oxipng::Options {
        fix_errors: options.fix_errors,
        optimize_alpha: options.optimize_alpha,
        strip,
        scale_16: options.scale_16,
        deflater: oxipng::Deflater::Libdeflater { compression: options.compression },
        fast_evaluation: options.fast_evaluation,
        ..oxipng::Options::from_preset(options.preset)
    };
    oxipng::optimize_from_memory(data, &opts)
}

/// Calls `Display` of `oxipng::PngError`; nothing is stated of the text.
#[verifier::external_body]
fn png_error_text(e: &oxipng::PngError) -> String {
    format!("{}", e)
}

/// Why an image could not be optimised.
#[derive(Debug, Clone, PartialEq, Eq)]
pub enum ImageError {
    /// The PNG optimiser failed, with its message.
    Png(String),
    /// The JPEG codec failed or panicked, with a message.
    Jpeg(String),
    /// A PNG file with an APNG frame chunk too short for its sequence number.
    ShortFrameChunk,
}

/// The re-encoded image worth keeping: none if it is empty or not smaller than the original.
pub open spec fn worth_keeping(original_len: nat, candidate: Seq<u8>) -> Option<Seq<u8>> {
    if candidate.len() == 0 || candidate.len() >= original_len {
        None
    } else {
        Some(candidate)
    }
}

/// Keeps a re-encoded image only if it is non-empty and strictly smaller than the original.
pub fn keep_if_smaller(original: &[u8], candidate: Vec<u8>) -> (r: Option<Vec<u8>>)
    ensures
        r matches Some(v) ==> worth_keeping(original@.len(), candidate@) == Some(v@),
        r is None ==> worth_keeping(original@.len(), candidate@) is None,
{
    if candidate.len() == 0 || candidate.len() >= original.len() {
        None
    } else {
        Some(candidate)
    }
}

/// Optimises a PNG file losslessly (but for 16-bit scaling below quality 100).
/// `Ok(None)` means the result would not be smaller; an `Err` is the optimiser's failure,
/// or `ShortFrameChunk` for a file the optimiser cannot be handed.
pub fn optimise_png(bytes: &[u8], quality: u8) -> (r: Result<Option<Vec<u8>>, ImageError>)
    ensures
        !frame_chunks_hold_sequence(bytes@) ==> r matches Err(ImageError::ShortFrameChunk),
        frame_chunks_hold_sequence(bytes@) ==> match png_optimized(bytes@, osk_png_options(quality)) {
            Some(out) => match r {
                Ok(Some(v)) => worth_keeping(bytes@.len(), out) == Some(v@),
                Ok(None) => worth_keeping(bytes@.len(), out) is None,
                Err(_) => false,
            },
            None => r matches Err(ImageError::Png(_)),
        },
{
    if !frame_chunks_sound(bytes) {
        return Err(ImageError::ShortFrameChunk);
    }
    let options = png_options(quality);
    match oxipng_optimize(bytes, &options) {
        Ok(out) => Ok(keep_if_smaller(bytes, out)),
        Err(e) => Err(ImageError::Png(png_error_text(&e))),
    }
}

/// The optimiser never makes an image larger: a result that is kept is non-empty
/// and strictly smaller than the original.
pub proof fn law_kept_image_is_smaller(original_len: nat, candidate: Seq<u8>)
    ensures
        worth_keeping(original_len, candidate) matches Some(v) ==> 0 < v.len() < original_len,
{
}

} // verus!
