//! Core logic of an osu! skin optimiser: how the files of a skin archive are
//! classified, which of them are kept, how media is converted and shrunk,
//! and how the command line is interpreted.

pub mod aud;
pub mod cli;
pub mod img;
pub mod order;
pub mod pack;
pub mod paths;
pub mod sorting;
pub mod text;

pub use aud::AudioKind;
pub use img::ImageKind;

use crate::paths::{
    extension_dot, extension_of, file_stem_of, is_lower_ascii_word, last_dot, lower_case, path_extension,
    path_file_name, path_file_stem, to_lowercase,
};
use vstd::prelude::*;

verus! {

/// The two configuration formats a skin may carry.
#[derive(Debug, Clone, Copy, PartialEq, Eq, Hash, Structural)]
pub enum ConfigKind {
    LazerJson,
    SkinIni,
}

/// What a file of a skin is, as far as the optimiser cares.
#[derive(Debug, Clone, Copy, PartialEq, Eq, Hash, Structural)]
pub enum FileKind {
    Image(ImageKind),
    Audio(AudioKind),
    Config(ConfigKind),
    Unknown,
}

/// The extension under which a file of the given kind is stored.
pub open spec fn kind_extension(kind: FileKind) -> Seq<char> {
    match kind {
        FileKind::Image(ImageKind::Jpeg) => "jpg"@,
        FileKind::Image(ImageKind::Png) => "png"@,
        FileKind::Audio(AudioKind::Mp3) => "mp3"@,
        FileKind::Audio(AudioKind::Wav) => "wav"@,
        FileKind::Audio(AudioKind::Ogg) => "ogg"@,
        FileKind::Config(ConfigKind::LazerJson) => "json"@,
        FileKind::Config(ConfigKind::SkinIni) => "ini"@,
        FileKind::Unknown => ""@,
    }
}

impl FileKind {
    /// The file extension (without the dot) that files of this kind are written with.
    pub fn extension(&self) -> (r: &str)
        ensures
            r@ == kind_extension(*self),
    {
        match self {
            FileKind::Image(ImageKind::Jpeg) => "jpg",
            FileKind::Image(ImageKind::Png) => "png",
            FileKind::Audio(AudioKind::Mp3) => "mp3",
            FileKind::Audio(AudioKind::Wav) => "wav",
            FileKind::Audio(AudioKind::Ogg) => "ogg",
            FileKind::Config(ConfigKind::LazerJson) => "json",
            FileKind::Config(ConfigKind::SkinIni) => "ini",
            FileKind::Unknown => "",
        }
    }
}

/// The name that `file_format::FileFormat::from_bytes(bytes).name()` gives the format
/// of `bytes` (each format of the crate has its own name).
pub uninterp spec fn detected_format_name(bytes: Seq<u8>) -> Seq<char>;

/// Calls `file_format::FileFormat::from_bytes` and returns the name of the format found.
#[verifier::external_body]
fn sniff_format_name(bytes: &[u8]) -> (r: String)
    ensures
        r@ == detected_format_name(bytes@),
{
    file_format::FileFormat::from_bytes(bytes).name().to_string()
}

/// The kind of a file whose content has the format of the given name. Configuration
/// files cannot be told by content, so they, like every other format, are `Unknown` here.
pub open spec fn kind_of_format(name: Seq<char>) -> FileKind {
    if name == "Joint Photographic Experts Group"@ {
        FileKind::Image(ImageKind::Jpeg)
    } else if name == "Portable Network Graphics"@ {
        FileKind::Image(ImageKind::Png)
    } else if name == "Waveform Audio"@ {
        FileKind::Audio(AudioKind::Wav)
    } else if name == "Ogg Vorbis"@ {
        FileKind::Audio(AudioKind::Ogg)
    } else if name == "MPEG-1/2 Audio Layer 3"@ {
        FileKind::Audio(AudioKind::Mp3)
    } else {
        FileKind::Unknown
    }
}

impl FileKind {
    /// The kind that a format, given by its `file_format` name, stands for.
    pub fn from_format(name: &str) -> (r: FileKind)
        ensures
            r == kind_of_format(name@),
    {
        let c = text::chars_of(name);
        let n = c.len();
        assert(c@.subrange(0, n as int) =~= name@);
        if text::run_equals(&c, 0, n, "Joint Photographic Experts Group") {
            FileKind::Image(ImageKind::Jpeg)
        } else if text::run_equals(&c, 0, n, "Portable Network Graphics") {
            FileKind::Image(ImageKind::Png)
        } else if text::run_equals(&c, 0, n, "Waveform Audio") {
            FileKind::Audio(AudioKind::Wav)
        } else if text::run_equals(&c, 0, n, "Ogg Vorbis") {
            FileKind::Audio(AudioKind::Ogg)
        } else if text::run_equals(&c, 0, n, "MPEG-1/2 Audio Layer 3") {
            FileKind::Audio(AudioKind::Mp3)
        } else {
            FileKind::Unknown
        }
    }

    /// The kind that the content of a file reveals.
    pub fn sniff(bytes: &[u8]) -> (r: FileKind)
        ensures
            r == kind_of_format(detected_format_name(bytes@)),
    {
        let name = sniff_format_name(bytes);
        FileKind::from_format(name.as_str())
    }
}

/// The kind named by a lower-cased extension, given the lower-cased file stem
/// (which only matters for `ini`: only `skin.ini` is the skin configuration).
pub open spec fn kind_for_name(ext: Seq<char>, stem: Seq<char>) -> FileKind {
    if ext == "png"@ {
        FileKind::Image(ImageKind::Png)
    } else if ext == "jpg"@ || ext == "jpeg"@ {
        FileKind::Image(ImageKind::Jpeg)
    } else if ext == "mp3"@ {
        FileKind::Audio(AudioKind::Mp3)
    } else if ext == "ogg"@ {
        FileKind::Audio(AudioKind::Ogg)
    } else if ext == "wav"@ {
        FileKind::Audio(AudioKind::Wav)
    } else if ext == "ini"@ && stem == "skin"@ {
        FileKind::Config(ConfigKind::SkinIni)
    } else if ext == "json"@ {
        FileKind::Config(ConfigKind::LazerJson)
    } else {
        FileKind::Unknown
    }
}

/// `o`'s text, or the empty text where there is none.
pub open spec fn text_or_empty(o: Option<Seq<char>>) -> Seq<char> {
    match o {
        Some(t) => t,
        None => Seq::<char>::empty(),
    }
}

/// The kind that a path's name gives a file.
pub open spec fn kind_of_path(path: Seq<char>) -> FileKind {
    kind_for_name(
        lower_case(text_or_empty(path_extension(path))),
        lower_case(text_or_empty(path_file_stem(path))),
    )
}

/// A file of a skin: what it is, and where it lives in the archive.
#[derive(Debug, Clone, PartialEq, Eq, Hash)]
pub struct FileData {
    pub kind: FileKind,
    pub path: String,
}

/// The text of an optional string, as a spec value.
pub open spec fn text_of(o: Option<String>) -> Option<Seq<char>> {
    match o {
        Some(t) => Some(t@),
        None => None,
    }
}

fn lowercase_of(part: &Option<String>) -> (r: String)
    ensures
        r@ == lower_case(text_or_empty(text_of(*part))),
{
    match part {
        Some(t) => to_lowercase(t.as_str()),
        None => {
            proof {
                reveal_strlit("");
            }
            assert(""@ =~= Seq::<char>::empty());
            to_lowercase("")
        },
    }
}

impl FileData {
    /// A file at `path`, with the kind that its extension (and, for `ini`, its stem) gives it.
    pub fn from_path(path: &str) -> (r: FileData)
        ensures
            r.kind == kind_of_path(path@),
            r.path@ == path@,
    {
        let ext = lowercase_of(&extension_of(path));
        let e = text::chars_of(ext.as_str());
        let n = e.len();
        assert(e@.subrange(0, n as int) =~= ext@);
        let kind = if text::run_equals(&e, 0, n, "png") {
            FileKind::Image(ImageKind::Png)
        } else if text::run_equals(&e, 0, n, "jpg") || text::run_equals(&e, 0, n, "jpeg") {
            FileKind::Image(ImageKind::Jpeg)
        } else if text::run_equals(&e, 0, n, "mp3") {
            FileKind::Audio(AudioKind::Mp3)
        } else if text::run_equals(&e, 0, n, "ogg") {
            FileKind::Audio(AudioKind::Ogg)
        } else if text::run_equals(&e, 0, n, "wav") {
            FileKind::Audio(AudioKind::Wav)
        } else if text::run_equals(&e, 0, n, "ini") && {
            let stem = lowercase_of(&file_stem_of(path));
            let t = text::chars_of(stem.as_str());
            assert(t@.subrange(0, t@.len() as int) =~= stem@);
            text::run_equals(&t, 0, t.len(), "skin")
        } {
            FileKind::Config(ConfigKind::SkinIni)
        } else if text::run_equals(&e, 0, n, "json") {
            FileKind::Config(ConfigKind::LazerJson)
        } else {
            FileKind::Unknown
        };
        FileData { kind, path: String::from_str(path) }
    }
}

/// How strongly a file is preferred among files that end up at the same path:
/// lower wins. PNG beats JPEG and Vorbis beats WAV.
pub open spec fn priority(kind: FileKind) -> u8 {
    match kind {
        FileKind::Image(ImageKind::Png) => 0,
        FileKind::Image(ImageKind::Jpeg) => 1,
        FileKind::Audio(AudioKind::Ogg) => 0,
        FileKind::Audio(AudioKind::Wav) => 1,
        _ => 2,
    }
}

/// The preference of a file among files at the same path (lower wins).
pub fn get_priority(file: &FileData) -> (r: u8)
    ensures
        r == priority(file.kind),
{
    match &file.kind {
        FileKind::Image(ImageKind::Png) => 0,
        FileKind::Image(ImageKind::Jpeg) => 1,
        FileKind::Audio(AudioKind::Ogg) => 0,
        FileKind::Audio(AudioKind::Wav) => 1,
        _ => 2,
    }
}

/// A file's kind read back from the extension it is written under is its kind again
/// (the skin configuration also needs the stem `skin`).
pub proof fn law_extension_names_its_kind(kind: FileKind, stem: Seq<char>)
    requires
        kind != FileKind::Unknown,
        kind == FileKind::Config(ConfigKind::SkinIni) ==> stem == "skin"@,
    ensures
        kind_for_name(kind_extension(kind), stem) == kind,
{
    reveal_strlit("png");
    reveal_strlit("jpg");
    reveal_strlit("jpeg");
    reveal_strlit("mp3");
    reveal_strlit("ogg");
    reveal_strlit("wav");
    reveal_strlit("ini");
    reveal_strlit("json");
    assert("png"@[0] == 'p' && "jpg"@[0] == 'j' && "mp3"@[0] == 'm' && "ogg"@[0] == 'o');
    assert("wav"@[0] == 'w' && "ini"@[0] == 'i' && "json"@.len() == 4 && "jpeg"@.len() == 4);
    assert("png"@.len() == 3 && "jpg"@.len() == 3 && "mp3"@.len() == 3 && "ogg"@.len() == 3);
    assert("wav"@.len() == 3 && "ini"@.len() == 3);
    assert("jpeg"@[1] == 'p' && "json"@[1] == 's');
    match kind {
        FileKind::Image(ImageKind::Png) => {},
        FileKind::Image(ImageKind::Jpeg) => {
            assert("jpg"@ != "png"@);
        },
        FileKind::Audio(AudioKind::Mp3) => {
            assert("mp3"@ != "png"@ && "mp3"@ != "jpg"@ && "mp3"@ != "jpeg"@);
        },
        FileKind::Audio(AudioKind::Ogg) => {
            assert("ogg"@ != "png"@ && "ogg"@ != "jpg"@ && "ogg"@ != "jpeg"@ && "ogg"@ != "mp3"@);
        },
        FileKind::Audio(AudioKind::Wav) => {
            assert("wav"@ != "png"@ && "wav"@ != "jpg"@ && "wav"@ != "jpeg"@ && "wav"@ != "mp3"@
                && "wav"@ != "ogg"@);
        },
        FileKind::Config(ConfigKind::SkinIni) => {
            assert("ini"@ != "png"@ && "ini"@ != "jpg"@ && "ini"@ != "jpeg"@ && "ini"@ != "mp3"@
                && "ini"@ != "ogg"@ && "ini"@ != "wav"@);
        },
        FileKind::Config(ConfigKind::LazerJson) => {
            assert("json"@ != "png"@ && "json"@ != "jpg"@ && "json"@ != "jpeg"@ && "json"@ != "mp3"@
                && "json"@ != "ogg"@ && "json"@ != "wav"@ && "json"@ != "ini"@);
        },
        FileKind::Unknown => {},
    }
}

/// In `a`, a `.` and then text without a `.`, the last `.` is the one after `a`.
proof fn lemma_last_dot_after(a: Seq<char>, b: Seq<char>)
    requires
        forall|i: int| 0 <= i < b.len() ==> b[i] != '.',
    ensures
        last_dot(a + seq!['.'] + b) == Some(a.len() as int),
    decreases b.len(),
{
    let s = a + seq!['.'] + b;
    if b.len() == 0 {
        assert(s.last() == '.');
    } else {
        assert(s.drop_last() =~= a + seq!['.'] + b.drop_last());
        lemma_last_dot_after(a, b.drop_last());
    }
}

/// A file stored as `skin.` and the extension of its kind is read back as that kind,
/// for every kind (for `Unknown` the name is `skin.`, whose extension is empty).
pub proof fn law_skin_name_reads_back(kind: FileKind, path: Seq<char>)
    requires
        path_file_name(path) == Some("skin."@ + kind_extension(kind)),
    ensures
        kind_of_path(path) == kind,
{
    reveal_strlit("skin.");
    reveal_strlit("skin");
    reveal_strlit("..");
    reveal_strlit("png");
    reveal_strlit("jpg");
    reveal_strlit("jpeg");
    reveal_strlit("mp3");
    reveal_strlit("ogg");
    reveal_strlit("wav");
    reveal_strlit("ini");
    reveal_strlit("json");
    reveal_strlit("");
    let e = kind_extension(kind);
    let name = "skin."@ + e;
    assert(forall|i: int| 0 <= i < e.len() ==> e[i] != '.');
    assert(name =~= "skin"@ + seq!['.'] + e);
    lemma_last_dot_after("skin"@, e);
    assert(name.len() != ".."@.len());
    assert(extension_dot(name) == Some(4int));
    assert(name.subrange(5, name.len() as int) =~= e);
    assert(name.subrange(0, 4) =~= "skin"@);
    assert(path_extension(path) == Some(e));
    assert(path_file_stem(path) == Some("skin"@));
    assert(is_lower_ascii_word("skin"@));
    assert(is_lower_ascii_word(e));
    if kind == FileKind::Unknown {
        assert(e.len() == 0);
    } else {
        law_extension_names_its_kind(kind, "skin"@);
    }
}

} // verus!
