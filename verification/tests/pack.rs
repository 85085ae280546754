use optiosk::cli::SkinItems;
use optiosk::pack::{
    archive_name, compression_for, dedup_media, is_hd, is_media, keeps, normalize_entry_path,
    refine_kind, select_entry, settle_audio, stream_to_shrink, EntryCompression,
};
use optiosk::aud::AudioError;
use optiosk::{AudioKind, ConfigKind, FileData, FileKind, ImageKind};

const PNG: FileKind = FileKind::Image(ImageKind::Png);
const JPEG: FileKind = FileKind::Image(ImageKind::Jpeg);
const OGG: FileKind = FileKind::Audio(AudioKind::Ogg);
const WAV: FileKind = FileKind::Audio(AudioKind::Wav);
const MP3: FileKind = FileKind::Audio(AudioKind::Mp3);

fn file(kind: FileKind, path: &str) -> FileData {
    FileData { kind, path: path.to_string() }
}

#[test]
fn content_wins_over_name() {
    assert_eq!(refine_kind(PNG, JPEG), JPEG);
    assert_eq!(refine_kind(PNG, FileKind::Unknown), PNG);
    assert_eq!(refine_kind(FileKind::Unknown, OGG), OGG);
}

#[test]
fn entry_paths_lose_their_extension() {
    assert_eq!(normalize_entry_path("hitcircle.png"), "hitcircle");
    assert_eq!(normalize_entry_path("dir/hit.tar.gz"), "dir/hit.tar");
    assert_eq!(normalize_entry_path("Skin.ini"), "skin");
    assert_eq!(normalize_entry_path("sub/Skin.ini"), "sub/skin");
    assert_eq!(normalize_entry_path("SKIN.ini"), "SKIN");
    assert_eq!(normalize_entry_path("noext"), "noext");
}

#[test]
fn hd_images_are_recognised() {
    assert!(is_hd("hitcircle@2x"));
    assert!(is_hd("dir/cursor@2x"));
    assert!(!is_hd("hitcircle"));
    assert!(!is_hd("dir@2x/cursor"));
    assert!(!is_hd("@2"));
}

#[test]
fn what_is_kept() {
    let all = SkinItems::all();
    let none = SkinItems::empty();
    assert!(keeps(PNG, true, all));
    assert!(keeps(PNG, false, all));
    assert!(!keeps(PNG, true, SkinItems::sd_images()));
    assert!(keeps(PNG, false, SkinItems::sd_images()));
    assert!(keeps(JPEG, true, SkinItems::hd_images()));
    assert!(!keeps(OGG, false, none));
    assert!(keeps(OGG, false, SkinItems::audio()));
    assert!(keeps(FileKind::Config(ConfigKind::LazerJson), false, SkinItems::lazer_files()));
    assert!(!keeps(FileKind::Config(ConfigKind::LazerJson), false, none));
    assert!(keeps(FileKind::Config(ConfigKind::SkinIni), false, none));
    assert!(!keeps(FileKind::Unknown, false, all));
    assert!(is_media(PNG) && is_media(WAV) && !is_media(FileKind::Config(ConfigKind::SkinIni)));
}

#[test]
fn selecting_entries() {
    let png = [0x89u8, b'P', b'N', b'G', 0x0d, 0x0a, 0x1a, 0x0a, 0, 0, 0, 0x0d, b'I', b'H', b'D', b'R'];
    let d = select_entry("hitcircle@2x.jpg", &png, SkinItems::all()).unwrap();
    assert_eq!(d.kind, PNG);
    assert_eq!(d.path, "hitcircle@2x");
    assert!(select_entry("hitcircle@2x.png", &png, SkinItems::sd_images()).is_none());
    assert!(select_entry("hitcircle.png", &png, SkinItems::sd_images()).is_some());
    let ini = select_entry("Skin.ini", b"[General]\n", SkinItems::empty()).unwrap();
    assert_eq!(ini.kind, FileKind::Config(ConfigKind::SkinIni));
    assert_eq!(ini.path, "skin");
    assert!(select_entry("readme.txt", b"hello", SkinItems::all()).is_none());
}

#[test]
fn compression_by_size() {
    assert_eq!(compression_for(0), (EntryCompression::Stored, None));
    assert_eq!(compression_for(1), (EntryCompression::Stored, Some(9)));
    assert_eq!(compression_for(2), (EntryCompression::Deflated, Some(9)));
    assert_eq!(compression_for(700 * 1024 - 1), (EntryCompression::Deflated, Some(9)));
    assert_eq!(compression_for(700 * 1024), (EntryCompression::Bzip2, Some(9)));
}

#[test]
fn archive_names_get_the_kind_extension() {
    assert_eq!(archive_name(&file(OGG, "sounds/hit")), "sounds/hit.ogg");
    assert_eq!(archive_name(&file(FileKind::Config(ConfigKind::SkinIni), "skin")), "skin.ini");
    assert_eq!(archive_name(&file(JPEG, "bg")), "bg.jpg");
}

#[test]
fn one_media_file_per_path() {
    let media = vec![
        file(JPEG, "b"),
        file(WAV, "hit"),
        file(PNG, "b"),
        file(OGG, "hit"),
        file(MP3, "a"),
        file(PNG, "a"),
        file(PNG, "c"),
        file(PNG, "c"),
    ];
    let kept = dedup_media(&media);
    assert_eq!(kept, vec![5, 2, 6, 3]);
}

#[test]
fn paths_compare_by_component() {
    let media = vec![file(PNG, "a//b"), file(JPEG, "a/b"), file(PNG, "a-b"), file(PNG, "a/b/")];
    let kept = dedup_media(&media);
    assert_eq!(kept, vec![0, 2]);
    assert!(dedup_media(&Vec::new()).is_empty());
}

#[test]
fn converted_stream_is_the_one_shrunk() {
    assert_eq!(stream_to_shrink(vec![1, 2, 3], Some(vec![9, 8])), vec![9, 8]);
    assert_eq!(stream_to_shrink(vec![1, 2, 3], None), vec![1, 2, 3]);
    assert_eq!(stream_to_shrink(vec![], Some(vec![])), Vec::<u8>::new());
}

#[test]
fn unconvertible_sound_is_emptied_as_wav() {
    let r = settle_audio(vec![1, 2, 3], Err(AudioError::NoMp3Frames));
    assert_eq!(r, Ok((Vec::new(), AudioKind::Wav)));
}

#[test]
fn unshrinkable_stream_reports_remux() {
    let garbage = b"this is not an ogg stream at all, not even close".to_vec();
    assert!(matches!(settle_audio(garbage.clone(), Ok(None)), Err(AudioError::Remux(_))));
    assert!(matches!(settle_audio(vec![], Ok(Some(garbage))), Err(AudioError::Remux(_))));
}
