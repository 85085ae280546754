use optiosk::{get_priority, AudioKind, ConfigKind, FileData, FileKind, ImageKind};

fn kind(path: &str) -> FileKind {
    FileData::from_path(path).kind
}

#[test]
fn extensions_of_kinds() {
    assert_eq!(FileKind::Image(ImageKind::Jpeg).extension(), "jpg");
    assert_eq!(FileKind::Image(ImageKind::Png).extension(), "png");
    assert_eq!(FileKind::Audio(AudioKind::Mp3).extension(), "mp3");
    assert_eq!(FileKind::Audio(AudioKind::Wav).extension(), "wav");
    assert_eq!(FileKind::Audio(AudioKind::Ogg).extension(), "ogg");
    assert_eq!(FileKind::Config(ConfigKind::LazerJson).extension(), "json");
    assert_eq!(FileKind::Config(ConfigKind::SkinIni).extension(), "ini");
    assert_eq!(FileKind::Unknown.extension(), "");
}

#[test]
fn kinds_from_paths() {
    assert_eq!(kind("hitcircle.png"), FileKind::Image(ImageKind::Png));
    assert_eq!(kind("dir/HitCircle.PNG"), FileKind::Image(ImageKind::Png));
    assert_eq!(kind("a.jpg"), FileKind::Image(ImageKind::Jpeg));
    assert_eq!(kind("a.JPEG"), FileKind::Image(ImageKind::Jpeg));
    assert_eq!(kind("hit.mp3"), FileKind::Audio(AudioKind::Mp3));
    assert_eq!(kind("hit.ogg"), FileKind::Audio(AudioKind::Ogg));
    assert_eq!(kind("hit.wav"), FileKind::Audio(AudioKind::Wav));
    assert_eq!(kind("skin.ini"), FileKind::Config(ConfigKind::SkinIni));
    assert_eq!(kind("SKIN.INI"), FileKind::Config(ConfigKind::SkinIni));
    assert_eq!(kind("other.ini"), FileKind::Unknown);
    assert_eq!(kind("skin.json"), FileKind::Config(ConfigKind::LazerJson));
    assert_eq!(kind("readme.txt"), FileKind::Unknown);
    assert_eq!(kind("noextension"), FileKind::Unknown);
    assert_eq!(kind(".png"), FileKind::Unknown);
    let d = FileData::from_path("x/y.wav");
    assert_eq!(d.path, "x/y.wav");
}

#[test]
fn kinds_from_formats() {
    assert_eq!(FileKind::from_format("Joint Photographic Experts Group"), FileKind::Image(ImageKind::Jpeg));
    assert_eq!(FileKind::from_format("Portable Network Graphics"), FileKind::Image(ImageKind::Png));
    assert_eq!(FileKind::from_format("Waveform Audio"), FileKind::Audio(AudioKind::Wav));
    assert_eq!(FileKind::from_format("Ogg Vorbis"), FileKind::Audio(AudioKind::Ogg));
    assert_eq!(FileKind::from_format("MPEG-1/2 Audio Layer 3"), FileKind::Audio(AudioKind::Mp3));
    assert_eq!(FileKind::from_format("Ogg Opus"), FileKind::Unknown);
    assert_eq!(FileKind::from_format(""), FileKind::Unknown);
}

#[test]
fn kinds_from_content() {
    let png = [0x89u8, b'P', b'N', b'G', 0x0d, 0x0a, 0x1a, 0x0a, 0, 0, 0, 0x0d, b'I', b'H', b'D', b'R'];
    assert_eq!(FileKind::sniff(&png), FileKind::Image(ImageKind::Png));
    let jpeg = [0xffu8, 0xd8, 0xff, 0xe0, 0, 0x10, b'J', b'F', b'I', b'F', 0];
    assert_eq!(FileKind::sniff(&jpeg), FileKind::Image(ImageKind::Jpeg));
    assert_eq!(FileKind::sniff(b"[General]\nName: x\n"), FileKind::Unknown);
    assert_eq!(FileKind::sniff(&[]), FileKind::Unknown);
    let wav = [b'R', b'I', b'F', b'F', 0x24, 0, 0, 0, b'W', b'A', b'V', b'E', b'f', b'm', b't', b' '];
    assert_eq!(FileKind::sniff(&wav), FileKind::Audio(AudioKind::Wav));
}

#[test]
fn priorities() {
    let p = |k: FileKind| get_priority(&FileData { kind: k, path: "a".to_string() });
    assert_eq!(p(FileKind::Image(ImageKind::Png)), 0);
    assert_eq!(p(FileKind::Image(ImageKind::Jpeg)), 1);
    assert_eq!(p(FileKind::Audio(AudioKind::Ogg)), 0);
    assert_eq!(p(FileKind::Audio(AudioKind::Wav)), 1);
    assert_eq!(p(FileKind::Audio(AudioKind::Mp3)), 2);
    assert_eq!(p(FileKind::Config(ConfigKind::SkinIni)), 2);
}

#[test]
fn skin_name_reads_back_every_kind() {
    let kinds = [
        FileKind::Image(ImageKind::Png),
        FileKind::Image(ImageKind::Jpeg),
        FileKind::Audio(AudioKind::Mp3),
        FileKind::Audio(AudioKind::Ogg),
        FileKind::Audio(AudioKind::Wav),
        FileKind::Config(ConfigKind::SkinIni),
        FileKind::Config(ConfigKind::LazerJson),
        FileKind::Unknown,
    ];
    for k in kinds {
        let p = format!("skin.{}", k.extension());
        assert_eq!(kind(&p), k);
        assert_eq!(kind(&format!("dir/{}", p)), k);
    }
}
