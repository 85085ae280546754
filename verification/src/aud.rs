//! Audio: deciding what becomes of a sound file, and shrinking Vorbis streams.
//!
//! Decoding to PCM and encoding PCM to Vorbis work on floating-point samples and
//! are done by the caller; this module decides, step by step, what happens.

use optivorbis::remuxer::ogg_to_ogg::{RemuxError, Settings};
use optivorbis::{OggToOgg, Remuxer, VorbisCommentFieldsAction, VorbisOptimizerSettings, VorbisVendorStringAction};
use std::io::Cursor;
use vstd::prelude::*;

verus! {

/// The audio containers a skin may hold.
#[derive(Debug, Clone, Copy, PartialEq, Eq, Hash, Structural)]
pub enum AudioKind {
    Mp3,
    Ogg,
    Wav,
}

/// Why a sound could not be converted or optimised.
#[derive(Debug, Clone, PartialEq, Eq)]
pub enum AudioError {
    /// The frames of an MP3 stream disagree on sample rate or channel count.
    Mp3ParametersChanged,
    /// An MP3 stream without a single decodable frame.
    NoMp3Frames,
    /// An MP3 stream whose channel count was never seen.
    NoMp3Channels,
    /// The sample rate does not fit the encoder (it is 0 as a 32-bit number).
    ZeroSampleRate,
    /// The channel count does not fit the encoder (it is 0 as an 8-bit number).
    ZeroChannels,
    /// A decoder failed, with its message.
    Decode(String),
    /// The Vorbis encoder failed, with its message.
    Encode(String),
    /// The Vorbis stream optimiser failed, with its message.
    Remux(String),
}

/// What decoding a sound to interleaved PCM found out.
#[derive(Debug, Clone, Copy, PartialEq, Eq, Structural)]
pub struct PcmSummary {
    /// The number of samples, over all channels.
    pub samples: usize,
    /// Samples per second.
    pub sample_rate: u64,
    /// Interleaved channels.
    pub channels: u32,
    /// Whether every sample is (numerically) zero.
    pub silent: bool,
}

/// What the outside work of a conversion reports back.
#[derive(Debug, PartialEq, Eq)]
pub enum ConversionEvent {
    /// The conversion begins.
    Start,
    /// The input was decoded to PCM, or could not be.
    Decoded(Result<PcmSummary, AudioError>),
    /// The PCM was encoded to Vorbis, or could not be.
    Encoded(Result<Vec<u8>, AudioError>),
}

/// What the conversion does next.
#[derive(Debug, PartialEq, Eq)]
pub enum ConversionAction {
    /// Decode the input to PCM, then report `Decoded`.
    DecodePcm,
    /// Encode the decoded PCM to Vorbis with these parameters, then report `Encoded`.
    EncodeVorbis { sample_rate: u32, channels: u8 },
    /// Stop with this result: `Ok(None)` when there is nothing worth converting,
    /// `Ok(Some(bytes))` with the Vorbis stream to use.
    Finish(Result<Option<Vec<u8>>, AudioError>),
}

/// Whether decoded audio is worth converting at all.
pub open spec fn pcm_is_useful(pcm: PcmSummary) -> bool {
    pcm.sample_rate != 0 && pcm.samples != 0 && !pcm.silent
}

/// What decoded audio leads to.
#[derive(Debug, Clone, Copy, PartialEq, Eq, Structural)]
pub enum PcmVerdict {
    /// Nothing worth converting.
    Skip,
    /// Already Vorbis: the input itself is the result.
    KeepInput,
    /// The sample rate is 0 as a 32-bit number.
    BadSampleRate,
    /// The channel count is 0 as an 8-bit number.
    BadChannels,
    /// Encode with this sample rate and channel count.
    Encode(u32, u8),
}

/// The verdict on decoded audio of kind `kind`.
pub open spec fn pcm_verdict(kind: AudioKind, pcm: PcmSummary) -> PcmVerdict {
    if !pcm_is_useful(pcm) {
        PcmVerdict::Skip
    } else if kind == AudioKind::Ogg {
        PcmVerdict::KeepInput
    } else if pcm.sample_rate as u32 == 0 {
        PcmVerdict::BadSampleRate
    } else if pcm.channels as u8 == 0 {
        PcmVerdict::BadChannels
    } else {
        PcmVerdict::Encode(pcm.sample_rate as u32, pcm.channels as u8)
    }
}

/// One step of converting `bytes` of kind `kind` to Ogg Vorbis: given what the last
/// piece of outside work reported, decides what happens next.
///
/// Empty input, and audio without samples, rate or sound, are not converted. An
/// Ogg input that is worth keeping is kept as it is; anything else is encoded,
/// with the sample rate and channel count narrowed to what the encoder takes.
pub fn convert_to_vorbis(bytes: &[u8], kind: &AudioKind, event: ConversionEvent) -> (r:
    ConversionAction)
    ensures
        bytes@.len() == 0 ==> r == ConversionAction::Finish(Ok(None)),
        bytes@.len() != 0 ==> match event {
            ConversionEvent::Start => r == ConversionAction::DecodePcm,
            ConversionEvent::Decoded(Err(e)) => r == ConversionAction::Finish(Err(e)),
            ConversionEvent::Decoded(Ok(pcm)) => match pcm_verdict(*kind, pcm) {
                PcmVerdict::Skip => r == ConversionAction::Finish(Ok(None)),
                PcmVerdict::KeepInput => r matches ConversionAction::Finish(Ok(Some(v))) && v@
                    == bytes@,
                PcmVerdict::BadSampleRate => r == ConversionAction::Finish(
                    Err(AudioError::ZeroSampleRate),
                ),
                PcmVerdict::BadChannels => r == ConversionAction::Finish(
                    Err(AudioError::ZeroChannels),
                ),
                PcmVerdict::Encode(sample_rate, channels) => r == ConversionAction::EncodeVorbis {
                    sample_rate,
                    channels,
                },
            },
            ConversionEvent::Encoded(Ok(v)) => r == ConversionAction::Finish(Ok(Some(v))),
            ConversionEvent::Encoded(Err(e)) => r == ConversionAction::Finish(Err(e)),
        },
{
    if bytes.len() == 0 {
        return ConversionAction::Finish(Ok(None));
    }
    match event {
        ConversionEvent::Start => ConversionAction::DecodePcm,
        ConversionEvent::Decoded(Err(e)) => ConversionAction::Finish(Err(e)),
        ConversionEvent::Decoded(Ok(pcm)) => {
            if pcm.sample_rate == 0 || pcm.samples == 0 || pcm.silent {
                ConversionAction::Finish(Ok(None))
            } else if *kind == AudioKind::Ogg {
                ConversionAction::Finish(Ok(Some(vstd::slice::slice_to_vec(bytes))))
            } else {
                let sample_rate = pcm.sample_rate as u32;
                let channels = pcm.channels as u8;
                if sample_rate == 0 {
                    ConversionAction::Finish(Err(AudioError::ZeroSampleRate))
                } else if channels == 0 {
                    ConversionAction::Finish(Err(AudioError::ZeroChannels))
                } else {
                    ConversionAction::EncodeVorbis { sample_rate, channels }
                }
            }
        },
        ConversionEvent::Encoded(Ok(v)) => ConversionAction::Finish(Ok(Some(v))),
        ConversionEvent::Encoded(Err(e)) => ConversionAction::Finish(Err(e)),
    }
}

/// The stream parameters of an MP3 stream, as its frames are read: the values of
/// the first frame, which every later frame must repeat.
#[derive(Debug, Clone, Copy, PartialEq, Eq, Structural)]
pub struct Mp3Stream {
    pub sample_rate: Option<i32>,
    pub channels: Option<usize>,
}

impl Mp3Stream {
    /// A stream of which no frame has been read.
    pub fn new() -> (r: Mp3Stream)
        ensures
            r.sample_rate is None,
            r.channels is None,
    {
        Mp3Stream { sample_rate: None, channels: None }
    }

    /// Takes note of a decoded frame; fails if it disagrees with the first frame.
    pub fn observe_frame(&mut self, sample_rate: i32, channels: usize) -> (r: Result<(), AudioError>)
        ensures
            final(self).sample_rate == Some(
                match old(self).sample_rate {
                    Some(first) => first,
                    None => sample_rate,
                },
            ),
            final(self).channels == Some(
                match old(self).channels {
                    Some(first) => first,
                    None => channels,
                },
            ),
            r is Ok <==> final(self).sample_rate == Some(sample_rate) && final(self).channels == Some(
                channels,
            ),
            r is Err ==> r == Err::<(), AudioError>(AudioError::Mp3ParametersChanged),
    {
        if self.sample_rate.is_none() {
            self.sample_rate = Some(sample_rate);
        }
        if self.channels.is_none() {
            self.channels = Some(channels);
        }
        let same_rate = match self.sample_rate {
            Some(first) => first == sample_rate,
            None => false,
        };
        let same_channels = match self.channels {
            Some(first) => first == channels,
            None => false,
        };
        if !same_rate || !same_channels {
            Err(AudioError::Mp3ParametersChanged)
        } else {
            Ok(())
        }
    }

    /// The sample rate and channel count of the whole stream, once every frame is read.
    pub fn finish(&self) -> (r: Result<(u64, u32), AudioError>)
        ensures
            match (self.sample_rate, self.channels) {
                (None, _) => r == Err::<(u64, u32), AudioError>(AudioError::NoMp3Frames),
                (Some(_), None) => r == Err::<(u64, u32), AudioError>(AudioError::NoMp3Channels),
                (Some(rate), Some(ch)) => r == Ok::<(u64, u32), AudioError>(
                    (rate as u64, ch as u32),
                ),
            },
    {
        match self.sample_rate {
            None => Err(AudioError::NoMp3Frames),
            Some(rate) => match self.channels {
                None => Err(AudioError::NoMp3Channels),
                Some(ch) => Ok((rate as u64, ch as u32)),
            },
        }
    }
}

/// How the vendor string of a Vorbis stream is rewritten.
#[derive(Debug, Clone, Copy, PartialEq, Eq, Structural)]
pub enum VendorString {
    Copy,
    Replace,
    AppendTag,
    AppendShortTag,
    Empty,
}

/// What becomes of the user comments of a Vorbis stream.
#[derive(Debug, Clone, Copy, PartialEq, Eq, Structural)]
pub enum CommentFields {
    Copy,
    Delete,
}

/// The settings handed to the Vorbis stream optimiser.
#[derive(Debug, Clone, Copy, PartialEq, Eq, Structural)]
pub struct VorbisRemuxSettings {
    pub vendor_string: VendorString,
    pub comment_fields: CommentFields,
    /// Recompute granule positions as if the stream started at sample 0.
    pub ignore_start_sample_offset: bool,
    /// Fail on an Ogg file without a Vorbis stream.
    pub error_on_no_vorbis_streams: bool,
}

/// The settings the optimiser shrinks Vorbis streams with: metadata is dropped,
/// the start offset is ignored, and a file without Vorbis streams is no error.
pub open spec fn osk_remux_settings() -> VorbisRemuxSettings {
    VorbisRemuxSettings {
        vendor_string: VendorString::Empty,
        comment_fields: CommentFields::Delete,
        ignore_start_sample_offset: true,
        error_on_no_vorbis_streams: false,
    }
}

/// The settings the optimiser shrinks Vorbis streams with.
pub fn remux_settings() -> (r: VorbisRemuxSettings)
    ensures
        r == osk_remux_settings(),
{
    VorbisRemuxSettings {
        vendor_string: VendorString::Empty,
        comment_fields: CommentFields::Delete,
        ignore_start_sample_offset: true,
        error_on_no_vorbis_streams: false,
    }
}

/// The error type of `optivorbis`' Ogg remuxer.
#[verifier::external_type_specification]
#[verifier::external_body]
pub struct ExRemuxError(optivorbis::remuxer::ogg_to_ogg::RemuxError);

/// Whether the first pass of `optivorbis::OggToOgg::remux` (`first_pass`, which reads
/// and checks every Vorbis stream before any serial is drawn or the environment is
/// read) fails on `bytes` with the optimiser and remuxer settings that `s` gives.
pub uninterp spec fn vorbis_stream_rejected(bytes: Seq<u8>, s: VorbisRemuxSettings) -> bool;

/// Calls `optivorbis::OggToOgg::new` and `optivorbis::Remuxer::remux` on the bytes. The
/// optimiser settings are `VorbisOptimizerSettings::default()` with the vendor string and
/// comment actions of `s` (each variant to the variant of the same name); the remuxer
/// settings are `Settings::default()` with the two flags of `s`. Nothing is stated of the
/// output, nor of a failure after the first pass: the remuxer then gives each stream a
/// randomly drawn serial number (and may read `SOURCE_DATE_EPOCH`). What is stated is that
/// a stream the first pass rejects is not remuxed.
#[verifier::external_body]
fn remux_ogg_to_ogg(bytes: &[u8], s: &VorbisRemuxSettings) -> (r: Result<Vec<u8>, RemuxError>)
    ensures
        vorbis_stream_rejected(bytes@, *s) ==> r is Err,
{
    let mut o = VorbisOptimizerSettings::default();
    o.vendor_string_action = match s.vendor_string {
        VendorString::Copy => VorbisVendorStringAction::Copy,
        VendorString::Replace => VorbisVendorStringAction::Replace,
        VendorString::AppendTag => VorbisVendorStringAction::AppendTag,
        VendorString::AppendShortTag => VorbisVendorStringAction::AppendShortTag,
        VendorString::Empty => VorbisVendorStringAction::Empty,
    };
    o.comment_fields_action = match s.comment_fields {
        CommentFields::Copy => VorbisCommentFieldsAction::Copy,
        CommentFields::Delete => VorbisCommentFieldsAction::Delete,
    };
    let r = Settings { ignore_start_sample_offset: s.ignore_start_sample_offset, error_on_no_vorbis_streams: s.error_on_no_vorbis_streams, ..Default::default() };
    Remuxer::remux(&<OggToOgg<_> as Remuxer>::new(r, o), Cursor::new(bytes), Vec::with_capacity(bytes.len()))
}

/// Calls `Display` of the remuxer's error; nothing is stated of the text.
#[verifier::external_body]
fn remux_error_text(e: &RemuxError) -> String {
    format!("{}", e)
}

/// The sum of the `n` lacing values of an Ogg page from `at` on: the length of the
/// page's body.
pub open spec fn lacing_sum(b: Seq<u8>, at: int, n: nat) -> nat
    decreases n,
{
    if n == 0 {
        0
    } else {
        lacing_sum(b, at, (n - 1) as nat) + b[at + n - 1] as nat
    }
}

/// Whether the Ogg page at `at`, whose body starts at `body`, opens with a Vorbis
/// comment header (packet type 3, `vorbis`) that still holds a vendor string or a
/// user comment. Only a page that does not continue a packet opens with a packet.
pub open spec fn opens_with_kept_metadata(b: Seq<u8>, at: int, body: int) -> bool {
    &&& b[at + 5] % 2 == 0
    &&& body + 15 <= b.len()
    &&& b[body] == 3 && b[body + 1] == 0x76 && b[body + 2] == 0x6f && b[body + 3] == 0x72
    &&& b[body + 4] == 0x62 && b[body + 5] == 0x69 && b[body + 6] == 0x73
    &&& !(b[body + 7] == 0 && b[body + 8] == 0 && b[body + 9] == 0 && b[body + 10] == 0
        && b[body + 11] == 0 && b[body + 12] == 0 && b[body + 13] == 0 && b[body + 14] == 0)
}

/// Walking the Ogg pages of `b` from `at` on (27-byte header whose last byte counts
/// the lacing values, the lacing values, then the body), as far as they fit: whether
/// no page opens with a Vorbis comment header that keeps a vendor string or comments.
pub open spec fn vorbis_metadata_stripped_from(b: Seq<u8>, at: int) -> bool
    decreases b.len() - at,
{
    if at < 0 || at + 27 > b.len() {
        true
    } else if at + 27 + b[at + 26] > b.len() {
        true
    } else if opens_with_kept_metadata(b, at, at + 27 + b[at + 26]) {
        false
    } else if at + 27 + b[at + 26] + lacing_sum(b, at + 27, b[at + 26] as nat) > b.len() {
        true
    } else {
        vorbis_metadata_stripped_from(
            b,
            at + 27 + b[at + 26] + lacing_sum(b, at + 27, b[at + 26] as nat),
        )
    }
}

/// Whether no Vorbis comment header of the Ogg stream `b` keeps a vendor string or a
/// user comment.
pub open spec fn vorbis_metadata_stripped(b: Seq<u8>) -> bool {
    vorbis_metadata_stripped_from(b, 0)
}

/// Checks `vorbis_metadata_stripped`.
pub fn metadata_stripped(b: &[u8]) -> (r: bool)
    ensures
        r == vorbis_metadata_stripped(b@),
{
    let mut at: usize = 0;
    loop
        invariant
            at <= b.len(),
            vorbis_metadata_stripped(b@) == vorbis_metadata_stripped_from(b@, at as int),
        decreases b.len() - at,
    {
        if b.len() - at < 27 {
            return true;
        }
        let nseg = b[at + 26] as usize;
        if b.len() - at - 27 < nseg {
            return true;
        }
        let body = at + 27 + nseg;
        if b[at + 5] % 2 == 0 && b.len() - body >= 15 && b[body] == 3 && b[body + 1] == 0x76
            && b[body + 2] == 0x6f && b[body + 3] == 0x72 && b[body + 4] == 0x62 && b[body + 5] == 0x69
            && b[body + 6] == 0x73 && !(b[body + 7] == 0 && b[body + 8] == 0 && b[body + 9] == 0
            && b[body + 10] == 0 && b[body + 11] == 0 && b[body + 12] == 0 && b[body + 13] == 0
            && b[body + 14] == 0) {
            return false;
        }
        let mut sum: usize = 0;
        let mut k: usize = 0;
        while k < nseg
            invariant
                k <= nseg,
                nseg <= 255,
                body == at + 27 + nseg,
                body <= b.len(),
                sum == lacing_sum(b@, at + 27, k as nat),
                sum <= 255 * k,
            decreases nseg - k,
        {
            sum = sum + b[at + 27 + k] as usize;
            k = k + 1;
        }
        if sum > b.len() - body {
            return true;
        }
        at = body + sum;
    }
}

/// Shrinks an Ogg Vorbis stream losslessly, with its comments deleted and its vendor
/// string emptied: the remuxer is handed the bytes as they are and the settings
/// `osk_remux_settings()`. What comes out is the remuxer's; a failure is reported as
/// `Remux`, and a stream that the remuxer's first pass rejects always fails. What is
/// returned keeps no vendor string and no comment in any Vorbis comment header: the
/// remuxer's output is checked for that, and refused (as `Remux`) if it did.
pub fn optimise_vorbis(bytes: &[u8]) -> (r: Result<Vec<u8>, AudioError>)
    ensures
        vorbis_stream_rejected(bytes@, osk_remux_settings()) ==> r is Err,
        r is Err ==> r->Err_0 is Remux,
        r matches Ok(out) ==> vorbis_metadata_stripped(out@),
{
    match remux_ogg_to_ogg(bytes, &remux_settings()) {
        Ok(out) => if metadata_stripped(out.as_slice()) {
            Ok(out)
        } else {
            Err(AudioError::Remux(String::from_str("the remuxed stream kept its metadata")))
        },
        Err(e) => Err(AudioError::Remux(remux_error_text(&e))),
    }
}

/// An Ogg Vorbis input is never re-encoded: it is either dropped or kept as it is.
pub proof fn law_vorbis_is_never_reencoded(pcm: PcmSummary)
    ensures
        pcm_verdict(AudioKind::Ogg, pcm) == PcmVerdict::Skip || pcm_verdict(AudioKind::Ogg, pcm)
            == PcmVerdict::KeepInput,
{
}

/// Silent audio, and audio without samples or sample rate, is never converted.
pub proof fn law_useless_audio_is_dropped(kind: AudioKind, pcm: PcmSummary)
    requires
        pcm.silent || pcm.samples == 0 || pcm.sample_rate == 0,
    ensures
        pcm_verdict(kind, pcm) == PcmVerdict::Skip,
{
}

/// The encoder is only ever asked for a non-zero sample rate and channel count.
pub proof fn law_encoder_gets_nonzero_parameters(kind: AudioKind, pcm: PcmSummary)
    ensures
        pcm_verdict(kind, pcm) matches PcmVerdict::Encode(rate, channels) ==> rate != 0 && channels
            != 0,
{
}

} // verus!
