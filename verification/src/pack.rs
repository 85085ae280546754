//! Repacking a skin: which archive entries survive, under which name, and how
//! each is stored in the new archive.

use crate::aud::{
    optimise_vorbis, osk_remux_settings, vorbis_metadata_stripped, vorbis_stream_rejected, AudioError,
};
use crate::cli::SkinItems;
use crate::order::{
    index_order, index_order_at, key_of, key_views, lemma_index_order_total, lemma_path_order_facts,
    flip, media_key, path_order, same_parts, MediaKey, Order, PathPart,
};
use crate::paths::{
    path_components,
    file_name_of, has_no_separator, path_file_name, path_with_extension, path_with_file_name,
    with_extension, with_file_name,
};
use crate::sorting::par_sort_positions;
use crate::text::{chars_of, contains_run, contains_word, run_equals};
use crate::{
    kind_extension, kind_of_format, kind_of_path, detected_format_name, AudioKind, ConfigKind,
    FileData, FileKind,
};
use vstd::prelude::*;

verus! {

/// The kind of an entry: what its content shows, or else what its name says.
/// Some skins give their files wrong extensions.
pub open spec fn refined_kind(by_name: FileKind, by_content: FileKind) -> FileKind {
    if by_content == FileKind::Unknown {
        by_name
    } else {
        by_content
    }
}

/// Prefers the kind the content shows over the kind the name gives.
pub fn refine_kind(by_name: FileKind, by_content: FileKind) -> (r: FileKind)
    ensures
        r == refined_kind(by_name, by_content),
{
    match by_content {
        FileKind::Unknown => by_name,
        _ => by_content,
    }
}

/// The name an entry is stored under while it is processed: its path without
/// extension, with a file name `Skin` written `skin`.
pub open spec fn normalized_path(path: Seq<char>) -> Seq<char> {
    let bare = path_with_extension(path, ""@);
    if path_file_name(bare) == Some("Skin"@) {
        path_with_file_name(bare, "skin"@)
    } else {
        bare
    }
}

/// Strips the extension of an entry's path and lower-cases a `Skin` file name.
pub fn normalize_entry_path(path: &str) -> (r: String)
    ensures
        r@ == normalized_path(path@),
{
    proof {
        reveal_strlit("");
    }
    let bare = with_extension(path, "");
    match file_name_of(bare.as_str()) {
        Some(name) => {
            let chars = chars_of(name.as_str());
            assert(chars@.subrange(0, chars@.len() as int) =~= name@);
            if run_equals(&chars, 0, chars.len(), "Skin") {
                with_file_name(bare.as_str(), "skin")
            } else {
                bare
            }
        },
        None => bare,
    }
}

/// Whether an image at `path` is a high-definition (`@2x`) image.
pub open spec fn is_hd_path(path: Seq<char>) -> bool {
    match path_file_name(path) {
        Some(name) => contains_run(name, "@2x"@),
        None => false,
    }
}

/// Whether the file name of `path` marks a high-definition image.
pub fn is_hd(path: &str) -> (r: bool)
    ensures
        r == is_hd_path(path@),
{
    match file_name_of(path) {
        Some(name) => contains_word(name.as_str(), "@2x"),
        None => false,
    }
}

/// Whether a file of kind `kind` survives, given the items to keep (`keep`, as bits)
/// and, for images, whether it is a high-definition one.
pub open spec fn kept(kind: FileKind, hd: bool, keep: u16) -> bool {
    match kind {
        FileKind::Image(_) => if hd {
            keep & 0x20 == 0x20
        } else {
            keep & 0x40 == 0x40
        },
        FileKind::Audio(_) => keep & 0x80 == 0x80,
        FileKind::Config(ConfigKind::LazerJson) => keep & 0x100 == 0x100,
        FileKind::Config(ConfigKind::SkinIni) => true,
        FileKind::Unknown => false,
    }
}

/// Decides whether a file survives: images by their definition, audio, and lazer
/// files by the items kept; the skin configuration always; unknown files never.
pub fn keeps(kind: FileKind, hd: bool, keep: SkinItems) -> (r: bool)
    ensures
        r == kept(kind, hd, keep@),
{
    match kind {
        FileKind::Image(_) => if hd {
            keep.contains(SkinItems::hd_images())
        } else {
            keep.contains(SkinItems::sd_images())
        },
        FileKind::Audio(_) => keep.contains(SkinItems::audio()),
        FileKind::Config(ConfigKind::LazerJson) => keep.contains(SkinItems::lazer_files()),
        FileKind::Config(ConfigKind::SkinIni) => true,
        FileKind::Unknown => false,
    }
}

/// What becomes of an archive entry: `None` if it is dropped, else its kind and
/// working name.
pub open spec fn entry_outcome(path: Seq<char>, bytes: Seq<u8>, keep: u16) -> Option<
    (FileKind, Seq<char>),
> {
    let kind = refined_kind(kind_of_path(path), kind_of_format(detected_format_name(bytes)));
    let name = normalized_path(path);
    if kept(kind, is_hd_path(name), keep) {
        Some((kind, name))
    } else {
        None
    }
}

/// Classifies one archive entry by its name and content, gives it its working
/// name, and decides whether it is kept.
pub fn select_entry(path: &str, bytes: &[u8], keep: SkinItems) -> (r: Option<FileData>)
    ensures
        match entry_outcome(path@, bytes@, keep@) {
            Some((kind, name)) => r matches Some(d) && d.kind == kind && d.path@ == name,
            None => r is None,
        },
{
    let by_name = FileData::from_path(path);
    let kind = refine_kind(by_name.kind, FileKind::sniff(bytes));
    let name = normalize_entry_path(path);
    let hd = match kind {
        FileKind::Image(_) => is_hd(name.as_str()),
        _ => false,
    };
    if keeps(kind, hd, keep) {
        Some(FileData { kind, path: name })
    } else {
        None
    }
}

/// Whether a file is media (image or audio), as opposed to configuration.
pub open spec fn is_media_kind(kind: FileKind) -> bool {
    kind is Image || kind is Audio
}

/// Whether a file is media, which may be optimised and of which one per path survives.
pub fn is_media(kind: FileKind) -> (r: bool)
    ensures
        r == is_media_kind(kind),
{
    match kind {
        FileKind::Image(_) | FileKind::Audio(_) => true,
        _ => false,
    }
}

/// How an entry is compressed in the new archive.
#[derive(Debug, Clone, Copy, PartialEq, Eq, Hash, Structural)]
pub enum EntryCompression {
    Stored,
    Deflated,
    Bzip2,
}

/// Entries from this size on are compressed with bzip2, which pays off for large files.
pub const BZIP_THRESHOLD: usize = 716800;

/// The compression method for an entry of `len` bytes.
pub open spec fn compression_method_for(len: nat) -> EntryCompression {
    if len < 2 {
        EntryCompression::Stored
    } else if len < BZIP_THRESHOLD {
        EntryCompression::Deflated
    } else {
        EntryCompression::Bzip2
    }
}

/// The compression level for an entry of `len` bytes: none for an empty entry, else 9.
pub open spec fn compression_level_for(len: nat) -> Option<i64> {
    if len == 0 {
        None
    } else {
        Some(9)
    }
}

/// How an entry of `len` bytes is stored: tiny entries are stored as they are,
/// entries under 700 KiB deflated, larger ones bzip2-compressed; all at level 9
/// but the empty ones.
pub fn compression_for(len: usize) -> (r: (EntryCompression, Option<i64>))
    ensures
        r.0 == compression_method_for(len as nat),
        r.1 == compression_level_for(len as nat),
{
    let method = if len < 2 {
        EntryCompression::Stored
    } else if len < BZIP_THRESHOLD {
        EntryCompression::Deflated
    } else {
        EntryCompression::Bzip2
    };
    let level = if len == 0 {
        None
    } else {
        Some(9i64)
    };
    (method, level)
}

/// The name an entry is written under: its working name with the extension of its kind.
pub open spec fn archive_name_of(kind: FileKind, name: Seq<char>) -> Seq<char> {
    path_with_extension(name, kind_extension(kind))
}

/// The name under which a processed file is written to the new archive.
pub fn archive_name(data: &FileData) -> (r: String)
    ensures
        r@ == archive_name_of(data.kind, data.path@),
        r@ == path_with_extension(data.path@, kind_extension(data.kind)),
{
    proof {
        reveal_strlit("jpg");
        reveal_strlit("png");
        reveal_strlit("mp3");
        reveal_strlit("wav");
        reveal_strlit("ogg");
        reveal_strlit("json");
        reveal_strlit("ini");
        reveal_strlit("");
    }
    let ext = data.kind.extension();
    assert(has_no_separator(ext@));
    with_extension(data.path.as_str(), ext)
}

/// The converted stream, or the input where the conversion handed none back.
pub open spec fn chosen_stream(bytes: Seq<u8>, vorbis: Option<Vec<u8>>) -> Seq<u8> {
    match vorbis {
        Some(v) => v@,
        None => bytes,
    }
}

/// The stream that is shrunk once a sound was converted: the converted stream, or,
/// where the conversion handed none back, the input itself, which then already was an
/// Ogg Vorbis stream.
pub fn stream_to_shrink(bytes: Vec<u8>, vorbis: Option<Vec<u8>>) -> (r: Vec<u8>)
    ensures
        r@ == chosen_stream(bytes@, vorbis),
{
    match vorbis {
        Some(v) => v,
        None => bytes,
    }
}

/// Settles a sound after its conversion: the stream that `stream_to_shrink` picks (the
/// converted one, or the input when it already was Vorbis) is shrunk by
/// `optimise_vorbis` and stored as Ogg; a sound that could not be converted is emptied
/// and stored as WAV. A failure to shrink the stream is passed on.
pub fn settle_audio(bytes: Vec<u8>, converted: Result<Option<Vec<u8>>, AudioError>) -> (r: Result<
    (Vec<u8>, AudioKind),
    AudioError,
>)
    ensures
        converted is Err ==> (r matches Ok((b, k)) && b@.len() == 0 && k == AudioKind::Wav),
        converted is Ok ==> match r {
            Ok((_, k)) => k == AudioKind::Ogg,
            Err(e) => e is Remux,
        },
        converted matches Ok(v) ==> (vorbis_stream_rejected(chosen_stream(bytes@, v), osk_remux_settings())
            ==> r is Err),
        converted is Ok ==> (r matches Ok((out, _)) ==> vorbis_metadata_stripped(out@)),
{
    match converted {
        Ok(vorbis) => {
            let stream = stream_to_shrink(bytes, vorbis);
            match optimise_vorbis(stream.as_slice()) {
                Ok(out) => Ok((out, AudioKind::Ogg)),
                Err(e) => Err(e),
            }
        },
        Err(_) => Ok((Vec::new(), AudioKind::Wav)),
    }
}

/// The sorting keys of a list of files.
pub open spec fn media_keys(media: Seq<FileData>) -> Seq<crate::order::KeyView> {
    media.map_values(|d: FileData| key_of(d))
}

/// Whether the files at positions `i` and `j` lie at the same path (component by
/// component, as `camino` compares paths).
pub open spec fn same_path(media: Seq<FileData>, i: int, j: int) -> bool {
    path_components(media[i].path@) == path_components(media[j].path@)
}

/// Whether the file at position `i` comes first among the files at its path: every
/// other file there is an image where it is audio, or less preferred, or later.
pub open spec fn first_at_its_path(media: Seq<FileData>, i: int) -> bool {
    forall|j: int|
        0 <= j < media.len() && j != i && #[trigger] same_path(media, i, j) ==> index_order(
            media_keys(media),
            i,
            j,
        ) == Order::Less
}

proof fn lemma_entry_path_le(keys: Seq<crate::order::KeyView>, i: int, j: int)
    requires
        0 <= i < keys.len(),
        0 <= j < keys.len(),
        index_order(keys, i, j) != Order::Greater,
    ensures
        path_order(keys[i].0, keys[j].0) != Order::Greater,
{
}

/// Picks, among media files, one per path: the first in the order of `order.rs`
/// (images before audio, then PNG before JPEG and Vorbis before WAV, then the earlier
/// entry). Returns their positions, sorted by that order, hence by path.
pub fn dedup_media(media: &Vec<FileData>) -> (r: Vec<usize>)
    ensures
        forall|k: int| 0 <= k < r@.len() ==> (#[trigger] r@[k]) < media@.len() && first_at_its_path(
            media@,
            r@[k] as int,
        ),
        forall|i: int|
            0 <= i < media@.len() && first_at_its_path(media@, i) ==> #[trigger] r@.contains(
                i as usize,
            ),
        forall|p: int, q: int|
            0 <= p < q < r@.len() ==> index_order(
                media_keys(media@),
                r@[p] as int,
                r@[q] as int,
            ) == Order::Less,
{
    let n = media.len();
    let mut keys: Vec<MediaKey> = Vec::new();
    for i in 0..n
        invariant
            n == media@.len(),
            keys@.len() == i,
            forall|k: int| 0 <= k < i ==> (#[trigger] keys@[k])@ == key_of(media@[k]),
    {
        keys.push(media_key(&media[i]));
    }
    let ghost kv = key_views(keys@);
    assert(kv =~= media_keys(media@));
    let mut order: Vec<usize> = Vec::new();
    for i in 0..n
        invariant
            order@.len() == i,
            forall|k: int| 0 <= k < i ==> #[trigger] order@[k] == k,
    {
        order.push(i);
    }
    let ghost before = order@;
    proof {
        lemma_index_order_total(kv);
        assert(before.no_duplicates());
        before.lemma_multiset_has_no_duplicates();
    }
    par_sort_positions(&mut order, &keys);
    let ghost o = order@;
    proof {
        broadcast use vstd::seq_lib::group_to_multiset_ensures;

        assert forall|x: usize| o.to_multiset().contains(x) implies o.to_multiset().count(x)
            == 1 by {
            assert(before.to_multiset().contains(x));
        }
        o.lemma_multiset_has_no_duplicates_conv();
        assert forall|q: int| 0 <= q < o.len() implies #[trigger] o[q] < n by {
            assert(o.contains(o[q]));
            assert(o.to_multiset().count(o[q]) > 0);
            assert(before.to_multiset().count(o[q]) > 0);
            assert(before.contains(o[q]));
        }
        assert forall|i: int| 0 <= i < n implies #[trigger] o.contains(i as usize) by {
            assert(before[i] == i);
            assert(before.contains(i as usize));
            assert(before.to_multiset().count(i as usize) > 0);
            assert(o.to_multiset().count(i as usize) > 0);
        }
        assert(o.to_multiset().len() == before.to_multiset().len());
        assert(o.len() == n);
    }
    let mut kept: Vec<usize> = Vec::new();
    let ghost mut pos: Seq<int> = Seq::empty();
    for p in 0..n
        invariant
            n == media@.len(),
            o == order@,
            o.len() == n,
            o.no_duplicates(),
            kv == media_keys(media@),
            kv == key_views(keys@),
            keys@.len() == n,
            crate::order::index_order_is_total(kv),
            forall|q: int| 0 <= q < n ==> #[trigger] o[q] < n,
            forall|i: int| 0 <= i < n ==> #[trigger] o.contains(i as usize),
            forall|a: int, b: int|
                0 <= a < b < n ==> index_order_at(kv, o[a], o[b]) != Order::Greater,
            pos.len() == kept@.len(),
            forall|k: int| 0 <= k < kept@.len() ==> 0 <= #[trigger] pos[k] < p && kept@[k] == o[pos[k]],
            forall|k1: int, k2: int| 0 <= k1 < k2 < kept@.len() ==> pos[k1] < pos[k2],
            forall|k: int| 0 <= k < kept@.len() ==> first_at_its_path(media@, #[trigger] kept@[k] as int),
            forall|pp: int|
                0 <= pp < p && first_at_its_path(media@, o[pp] as int) ==> #[trigger] kept@.contains(o[pp]),
    {
        let start = p == 0 || !same_parts(&keys[order[p - 1]].parts, &keys[order[p]].parts);
        proof {
            let x = o[p as int];
            if start {
                assert forall|j: int|
                    0 <= j < media@.len() && j != x && #[trigger] same_path(
                        media@,
                        x as int,
                        j,
                    ) implies index_order(media_keys(media@), x as int, j) == Order::Less by {
                    assert(o.contains(j as usize));
                    let q = choose|q: int| 0 <= q < o.len() && o[q] == j as usize;
                    if q > p {
                        assert(index_order_at(kv, o[p as int], o[q]) != Order::Greater);
                    } else {
                        assert(q < p);
                        let y = o[p - 1];
                        if q < p - 1 {
                            assert(index_order_at(kv, o[q], o[p - 1]) != Order::Greater);
                        }
                        assert(index_order(kv, j, y as int) != Order::Greater);
                        assert(index_order_at(kv, o[p - 1], o[p as int]) != Order::Greater);
                        lemma_entry_path_le(kv, j, y as int);
                        lemma_entry_path_le(kv, y as int, x as int);
                        lemma_path_order_facts(kv[y as int].0, kv[x as int].0);
                        assert(kv[x as int].0 == kv[j].0);
                        assert(kv[y as int].0 == kv[x as int].0);
                        assert(keys@[y as int].parts@.map_values(|q: PathPart| q@) == kv[y as int].0);
                        assert(false);
                    }
                }
            } else {
                let y = o[p - 1];
                assert(y != x);
                assert(index_order_at(kv, o[p - 1], o[p as int]) != Order::Greater);
                assert(kv[y as int].0 == kv[x as int].0);
                assert(same_path(media@, x as int, y as int));
                assert(index_order(kv, x as int, y as int) == Order::Greater);
                assert(!first_at_its_path(media@, x as int));
            }
        }
        let ghost old_kept = kept@;
        if start {
            kept.push(order[p]);
            proof {
                pos = pos.push(p as int);
                assert(kept@[kept@.len() - 1] == o[p as int]);
            }
        }
        proof {
            assert forall|pp: int|
                0 <= pp < p + 1 && first_at_its_path(media@, o[pp] as int) implies #[trigger] kept@.contains(o[pp]) by {
                if pp < p {
                    assert(old_kept.contains(o[pp]));
                    let k = choose|k: int| 0 <= k < old_kept.len() && old_kept[k] == o[pp];
                    assert(kept@[k] == o[pp]);
                }
            }
        }
    }
    proof {
        assert forall|k: int| 0 <= k < kept@.len() implies (#[trigger] kept@[k]) < media@.len()
            && first_at_its_path(media@, kept@[k] as int) by {
            assert(kept@[k] == o[pos[k]]);
            assert(o[pos[k]] < n);
        }
        assert forall|i: int|
            0 <= i < media@.len() && first_at_its_path(media@, i) implies #[trigger] kept@.contains(
            i as usize,
        ) by {
            assert(o.contains(i as usize));
            let q = choose|q: int| 0 <= q < o.len() && o[q] == i as usize;
        }
        assert forall|a: int, b: int| 0 <= a < b < kept@.len() implies index_order(
            media_keys(media@),
            kept@[a] as int,
            kept@[b] as int,
        ) == Order::Less by {
            assert(pos[a] < pos[b]);
            assert(index_order_at(kv, o[pos[a]], o[pos[b]]) != Order::Greater);
            assert(o[pos[a]] != o[pos[b]]);
        }
    }
    kept
}

/// Two different files that each come first at their path lie at different paths:
/// of the files at one path, at most one is kept.
pub proof fn law_one_file_kept_per_path(media: Seq<FileData>, i: int, j: int)
    requires
        0 <= i < media.len(),
        0 <= j < media.len(),
        i != j,
        first_at_its_path(media, i),
        first_at_its_path(media, j),
    ensures
        !same_path(media, i, j),
{
    lemma_index_order_total(media_keys(media));
    if same_path(media, i, j) {
        assert(same_path(media, j, i));
        assert(index_order(media_keys(media), i, j) == Order::Less);
        assert(index_order(media_keys(media), j, i) == Order::Less);
    }
}

proof fn lemma_prefix_first(media: Seq<FileData>, i: int, m: int) -> (res: Option<int>)
    requires
        0 <= i < media.len(),
        0 <= m <= media.len(),
    ensures
        res is None ==> forall|j: int| 0 <= j < m ==> !#[trigger] same_path(media, i, j),
        res matches Some(k) ==> {
            &&& 0 <= k < m
            &&& same_path(media, i, k)
            &&& forall|j: int|
                0 <= j < m && j != k && #[trigger] same_path(media, i, j) ==> index_order(
                    media_keys(media),
                    k,
                    j,
                ) == Order::Less
        },
    decreases m,
{
    let keys = media_keys(media);
    lemma_index_order_total(keys);
    if m == 0 {
        None
    } else {
        let prev = lemma_prefix_first(media, i, m - 1);
        let c = m - 1;
        if !same_path(media, i, c) {
            prev
        } else {
            match prev {
                None => Some(c),
                Some(k) => {
                    if index_order(keys, k, c) == Order::Less {
                        Some(k)
                    } else {
                        assert(index_order(keys, c, k) == flip(index_order(keys, k, c)));
                        assert(index_order(keys, c, k) == Order::Less);
                        assert forall|j: int|
                            0 <= j < m && j != c && #[trigger] same_path(media, i, j) implies index_order(
                            keys,
                            c,
                            j,
                        ) == Order::Less by {
                            if j != k {
                                assert(index_order(keys, k, j) == Order::Less);
                                assert(index_order(keys, c, j) != Order::Greater);
                                if index_order(keys, c, j) == Order::Equal {
                                    assert(c == j);
                                }
                            }
                        }
                        Some(c)
                    }
                },
            }
        }
    }
}

/// Every media file lies at a path where some file comes first, so every path of
/// the skin keeps a file.
pub proof fn law_every_path_keeps_a_file(media: Seq<FileData>, i: int)
    requires
        0 <= i < media.len(),
    ensures
        exists|k: int| 0 <= k < media.len() && #[trigger] first_at_its_path(media, k) && same_path(media, i, k),
{
    let res = lemma_prefix_first(media, i, media.len() as int);
    assert(same_path(media, i, i));
    let k = res->Some_0;
    assert forall|j: int|
        0 <= j < media.len() && j != k && #[trigger] same_path(media, k, j) implies index_order(
        media_keys(media),
        k,
        j,
    ) == Order::Less by {
        assert(same_path(media, i, j));
    }
    assert(first_at_its_path(media, k));
}

/// Where a PNG and a JPEG image lie at the same path, the JPEG is dropped.
pub proof fn law_png_beats_jpeg(media: Seq<FileData>, png: int, jpeg: int)
    requires
        0 <= png < media.len(),
        0 <= jpeg < media.len(),
        media[png].kind == FileKind::Image(crate::ImageKind::Png),
        media[jpeg].kind == FileKind::Image(crate::ImageKind::Jpeg),
        same_path(media, png, jpeg),
    ensures
        !first_at_its_path(media, jpeg),
{
    lemma_path_order_facts(path_components(media[jpeg].path@), path_components(media[png].path@));
    assert(same_path(media, jpeg, png));
    assert(index_order(media_keys(media), jpeg, png) == Order::Greater);
}

/// Where an image and a sound lie at the same path, the sound is dropped.
pub proof fn law_image_beats_audio(media: Seq<FileData>, image: int, sound: int)
    requires
        0 <= image < media.len(),
        0 <= sound < media.len(),
        media[image].kind is Image,
        media[sound].kind is Audio,
        same_path(media, image, sound),
    ensures
        !first_at_its_path(media, sound),
{
    lemma_path_order_facts(path_components(media[sound].path@), path_components(media[image].path@));
    assert(same_path(media, sound, image));
    assert(index_order(media_keys(media), sound, image) == Order::Greater);
}

/// Where a Vorbis and a WAV sound lie at the same path, the WAV is dropped.
pub proof fn law_vorbis_beats_wav(media: Seq<FileData>, vorbis: int, wav: int)
    requires
        0 <= vorbis < media.len(),
        0 <= wav < media.len(),
        media[vorbis].kind == FileKind::Audio(AudioKind::Ogg),
        media[wav].kind == FileKind::Audio(AudioKind::Wav),
        same_path(media, vorbis, wav),
    ensures
        !first_at_its_path(media, wav),
{
    lemma_path_order_facts(path_components(media[wav].path@), path_components(media[vorbis].path@));
    assert(same_path(media, wav, vorbis));
    assert(index_order(media_keys(media), wav, vorbis) == Order::Greater);
}

/// Keeping every item (the default) drops only files of unknown kind.
pub proof fn law_keeping_everything_drops_only_unknown(kind: FileKind, hd: bool)
    ensures
        kept(kind, hd, 0x3ff) <==> kind != FileKind::Unknown,
{
    assert(0x3ffu16 & 0x20u16 == 0x20u16) by (bit_vector);
    assert(0x3ffu16 & 0x40u16 == 0x40u16) by (bit_vector);
    assert(0x3ffu16 & 0x80u16 == 0x80u16) by (bit_vector);
    assert(0x3ffu16 & 0x100u16 == 0x100u16) by (bit_vector);
}

/// Where a Vorbis or WAV sound and an MP3 sound lie at the same path, the MP3 is dropped.
pub proof fn law_vorbis_and_wav_beat_mp3(media: Seq<FileData>, preferred: int, mp3: int)
    requires
        0 <= preferred < media.len(),
        0 <= mp3 < media.len(),
        media[preferred].kind == FileKind::Audio(AudioKind::Ogg) || media[preferred].kind
            == FileKind::Audio(AudioKind::Wav),
        media[mp3].kind == FileKind::Audio(AudioKind::Mp3),
        same_path(media, preferred, mp3),
    ensures
        !first_at_its_path(media, mp3),
{
    lemma_path_order_facts(path_components(media[mp3].path@), path_components(media[preferred].path@));
    assert(same_path(media, mp3, preferred));
    assert(index_order(media_keys(media), mp3, preferred) == Order::Greater);
}

/// A media file's sorting key is its path's components, then images before sounds,
/// then the preference of its kind: PNG before JPEG, Vorbis before WAV before other sound.
pub proof fn law_sort_key_follows_preference(d: FileData)
    ensures
        key_of(d).0 == path_components(d.path@),
        d.kind is Image ==> key_of(d).1 == 0,
        d.kind is Audio ==> key_of(d).1 == 1,
        d.kind == FileKind::Image(crate::ImageKind::Png) ==> key_of(d).2 == 0,
        d.kind == FileKind::Image(crate::ImageKind::Jpeg) ==> key_of(d).2 == 1,
        d.kind == FileKind::Audio(AudioKind::Ogg) ==> key_of(d).2 == 0,
        d.kind == FileKind::Audio(AudioKind::Wav) ==> key_of(d).2 == 1,
        d.kind == FileKind::Audio(AudioKind::Mp3) ==> key_of(d).2 == 2,
        key_of(d).2 == crate::priority(d.kind),
{
}

/// A recognised content decides the kind, whatever the name says; only an
/// unrecognised content leaves the kind to the name.
pub proof fn law_content_decides_kind(by_name: FileKind, by_content: FileKind)
    ensures
        by_content != FileKind::Unknown ==> refined_kind(by_name, by_content) == by_content,
        by_content == FileKind::Unknown ==> refined_kind(by_name, by_content) == by_name,
{
}

/// An entry that is kept with a recognised content has the kind its content shows.
pub proof fn law_kept_entry_has_content_kind(path: Seq<char>, bytes: Seq<u8>, keep: u16)
    ensures
        kind_of_format(detected_format_name(bytes)) != FileKind::Unknown ==> (entry_outcome(
            path,
            bytes,
            keep,
        ) matches Some((k, _)) ==> k == kind_of_format(detected_format_name(bytes))),
{
}

/// An SD image is kept exactly when SD images are kept, and an HD image exactly when
/// HD images are: neither item keeps the other kind of image.
pub proof fn law_image_definition_decides(image: crate::ImageKind, keep: u16)
    ensures
        kept(FileKind::Image(image), false, keep) <==> keep & 0x40 == 0x40,
        kept(FileKind::Image(image), true, keep) <==> keep & 0x20 == 0x20,
        !kept(FileKind::Image(image), false, 0x20),
        !kept(FileKind::Image(image), true, 0x40),
{
    assert(0x20u16 & 0x40u16 == 0u16) by (bit_vector);
    assert(0x40u16 & 0x20u16 == 0u16) by (bit_vector);
}

/// An entry is written under its working name with the extension of its kind
/// (`png`, `jpg`, `mp3`, `wav`, `ogg`, `json`, `ini`, or none).
pub proof fn law_archive_name_carries_kind_extension(kind: FileKind, name: Seq<char>)
    ensures
        archive_name_of(kind, name) == path_with_extension(name, kind_extension(kind)),
        kind == FileKind::Image(crate::ImageKind::Png) ==> archive_name_of(kind, name)
            == path_with_extension(name, "png"@),
        kind == FileKind::Image(crate::ImageKind::Jpeg) ==> archive_name_of(kind, name)
            == path_with_extension(name, "jpg"@),
        kind == FileKind::Audio(AudioKind::Ogg) ==> archive_name_of(kind, name)
            == path_with_extension(name, "ogg"@),
        kind == FileKind::Audio(AudioKind::Wav) ==> archive_name_of(kind, name)
            == path_with_extension(name, "wav"@),
        kind == FileKind::Audio(AudioKind::Mp3) ==> archive_name_of(kind, name)
            == path_with_extension(name, "mp3"@),
{
}

} // verus!
