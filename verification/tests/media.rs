use optiosk::aud::{
    convert_to_vorbis, optimise_vorbis, AudioError, ConversionAction, ConversionEvent, Mp3Stream,
    PcmSummary,
};
use optiosk::img::{frame_chunks_sound, keep_if_smaller, optimise_png, png_options, ImageError, StripMode};
use optiosk::AudioKind;

fn pcm(samples: usize, sample_rate: u64, channels: u32, silent: bool) -> PcmSummary {
    PcmSummary { samples, sample_rate, channels, silent }
}

#[test]
fn empty_audio_is_not_converted() {
    assert_eq!(
        convert_to_vorbis(&[], &AudioKind::Mp3, ConversionEvent::Start),
        ConversionAction::Finish(Ok(None))
    );
}

#[test]
fn conversion_steps() {
    let b = [1u8, 2, 3];
    assert_eq!(convert_to_vorbis(&b, &AudioKind::Wav, ConversionEvent::Start), ConversionAction::DecodePcm);
    let ev = |p| ConversionEvent::Decoded(Ok(p));
    assert_eq!(
        convert_to_vorbis(&b, &AudioKind::Wav, ev(pcm(10, 44100, 2, false))),
        ConversionAction::EncodeVorbis { sample_rate: 44100, channels: 2 }
    );
    assert_eq!(convert_to_vorbis(&b, &AudioKind::Wav, ev(pcm(10, 44100, 2, true))), ConversionAction::Finish(Ok(None)));
    assert_eq!(convert_to_vorbis(&b, &AudioKind::Mp3, ev(pcm(0, 44100, 2, false))), ConversionAction::Finish(Ok(None)));
    assert_eq!(convert_to_vorbis(&b, &AudioKind::Mp3, ev(pcm(5, 0, 2, false))), ConversionAction::Finish(Ok(None)));
    assert_eq!(
        convert_to_vorbis(&b, &AudioKind::Ogg, ev(pcm(5, 48000, 1, false))),
        ConversionAction::Finish(Ok(Some(vec![1, 2, 3])))
    );
    assert_eq!(
        convert_to_vorbis(&b, &AudioKind::Mp3, ev(pcm(5, 1u64 << 32, 1, false))),
        ConversionAction::Finish(Err(AudioError::ZeroSampleRate))
    );
    assert_eq!(
        convert_to_vorbis(&b, &AudioKind::Mp3, ev(pcm(5, (1u64 << 32) + 8000, 1, false))),
        ConversionAction::EncodeVorbis { sample_rate: 8000, channels: 1 }
    );
    assert_eq!(
        convert_to_vorbis(&b, &AudioKind::Mp3, ev(pcm(5, 8000, 256, false))),
        ConversionAction::Finish(Err(AudioError::ZeroChannels))
    );
    assert_eq!(
        convert_to_vorbis(&b, &AudioKind::Mp3, ConversionEvent::Decoded(Err(AudioError::Decode("bad".into())))),
        ConversionAction::Finish(Err(AudioError::Decode("bad".into())))
    );
    assert_eq!(
        convert_to_vorbis(&b, &AudioKind::Mp3, ConversionEvent::Encoded(Ok(vec![9]))),
        ConversionAction::Finish(Ok(Some(vec![9])))
    );
}

#[test]
fn mp3_stream_parameters() {
    let mut s = Mp3Stream::new();
    assert_eq!(s.finish(), Err(AudioError::NoMp3Frames));
    assert_eq!(s.observe_frame(44100, 2), Ok(()));
    assert_eq!(s.observe_frame(44100, 2), Ok(()));
    assert_eq!(s.finish(), Ok((44100, 2)));
    assert_eq!(s.observe_frame(48000, 2), Err(AudioError::Mp3ParametersChanged));
    assert_eq!(s.observe_frame(44100, 1), Err(AudioError::Mp3ParametersChanged));
    let mut n = Mp3Stream::new();
    n.observe_frame(-1, 1).unwrap();
    assert_eq!(n.finish(), Ok((u64::MAX, 1)));
}

#[test]
fn vorbis_optimiser_rejects_garbage() {
    let r = optimise_vorbis(b"this is not an ogg stream at all, not even close");
    assert!(matches!(r, Err(AudioError::Remux(_))));
}

#[test]
fn smaller_results_only() {
    assert_eq!(keep_if_smaller(&[1, 2, 3], vec![1, 2]), Some(vec![1, 2]));
    assert_eq!(keep_if_smaller(&[1, 2, 3], vec![1, 2, 3]), None);
    assert_eq!(keep_if_smaller(&[1, 2, 3], vec![]), None);
    assert_eq!(keep_if_smaller(&[], vec![]), None);
}

#[test]
fn png_settings_follow_quality() {
    let o = png_options(80);
    assert!(o.scale_16 && o.fix_errors && o.optimize_alpha && o.fast_evaluation);
    assert_eq!((o.preset, o.compression, o.strip), (3, 12, StripMode::Safe));
    assert!(!png_options(100).scale_16);
}

fn crc32(data: &[u8]) -> u32 {
    let mut crc = 0xffff_ffffu32;
    for &b in data {
        crc ^= b as u32;
        for _ in 0..8 {
            crc = if crc & 1 != 0 { (crc >> 1) ^ 0xedb8_8320 } else { crc >> 1 };
        }
    }
    !crc
}

fn chunk(kind: &[u8; 4], data: &[u8]) -> Vec<u8> {
    let mut out = (data.len() as u32).to_be_bytes().to_vec();
    let mut body = kind.to_vec();
    body.extend_from_slice(data);
    out.extend_from_slice(&body);
    out.extend_from_slice(&crc32(&body).to_be_bytes());
    out
}

fn tiny_png(padding: usize) -> Vec<u8> {
    let mut png = vec![0x89, b'P', b'N', b'G', 0x0d, 0x0a, 0x1a, 0x0a];
    png.extend(chunk(b"IHDR", &[0, 0, 0, 1, 0, 0, 0, 1, 8, 6, 0, 0, 0]));
    if padding > 0 {
        let mut text = b"Comment\0".to_vec();
        text.extend(std::iter::repeat(b'x').take(padding));
        png.extend(chunk(b"tEXt", &text));
    }
    png.extend(chunk(b"IDAT", &[0x78, 0x9c, 0x63, 0x00, 0x01, 0x00, 0x00, 0x05, 0x00, 0x01]));
    png.extend(chunk(b"IEND", &[]));
    png
}

#[test]
fn png_optimisation() {
    assert!(matches!(optimise_png(b"not a png", 80), Err(ImageError::Png(_))));
    let bloated = tiny_png(4000);
    let out = optimise_png(&bloated, 80).unwrap().expect("metadata is stripped");
    assert!(out.len() < bloated.len());
    assert!(out.len() > 0);
}

const SIGNATURE: [u8; 8] = [0x89, b'P', b'N', b'G', 0x0d, 0x0a, 0x1a, 0x0a];

#[test]
fn short_frame_chunk_is_refused() {
    let mut bad = SIGNATURE.to_vec();
    bad.extend_from_slice(&[0, 0, 0, 0]);
    bad.extend_from_slice(b"fcTL");
    bad.extend_from_slice(&[0, 0, 0, 0]);
    assert_eq!(bad.len(), 20);
    assert!(!frame_chunks_sound(&bad));
    assert_eq!(optimise_png(&bad, 80), Err(ImageError::ShortFrameChunk));
    let mut data = tiny_png(0);
    let end = data.len() - 12;
    data.splice(end..end, chunk(b"fdAT", &[0, 0, 1]));
    assert!(!frame_chunks_sound(&data));
    assert_eq!(optimise_png(&data, 80), Err(ImageError::ShortFrameChunk));
}

#[test]
fn frame_chunk_walk_stops_where_the_reader_stops() {
    assert!(frame_chunks_sound(b"not a png"));
    assert!(frame_chunks_sound(&tiny_png(10)));
    let mut after_end = tiny_png(0);
    after_end.extend(chunk(b"fcTL", &[]));
    assert!(frame_chunks_sound(&after_end));
    let mut truncated = SIGNATURE.to_vec();
    truncated.extend_from_slice(&[0, 0, 0, 9]);
    truncated.extend_from_slice(b"fcTL");
    assert!(frame_chunks_sound(&truncated));
    let mut long_enough = SIGNATURE.to_vec();
    long_enough.extend(chunk(b"fcTL", &[0, 0, 0, 0]));
    assert!(frame_chunks_sound(&long_enough));
    assert!(matches!(optimise_png(&long_enough, 80), Err(ImageError::Png(_))));
}
