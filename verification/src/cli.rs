//! The command line: which skin items to keep, which tweaks to apply, and the
//! checks on the arguments once they are read.

use crate::paths::{path_with_extension, with_extension};
use crate::text::{
    chars_of, comma_bounds, comma_free, lemma_split_after_piece, lemma_split_comma_free, run_equals,
    split_commas, trim, trimmed_bounds,
};
use vstd::prelude::*;

verus! {

/// Every skin item flag together: standard, catch, taiko, mania, animations,
/// HD images, SD images, audio, lazer files and prefixes.
pub open spec fn all_skin_items() -> u16 {
    0x3ff
}

/// Every tweak flag together: triple stack, instant fade, no combo colours,
/// no cursor trail, no follow points and no hit circles.
pub open spec fn all_tweaks() -> u16 {
    0x3f
}

/// A set of skin items, one bit per item.
#[derive(Debug, Clone, Copy, PartialEq, Eq, Hash, Structural)]
pub struct SkinItems {
    bits: u16,
}

/// A set of gameplay tweaks, one bit per tweak.
#[derive(Debug, Clone, Copy, PartialEq, Eq, Hash, Structural)]
pub struct Tweaks {
    bits: u16,
}

impl View for SkinItems {
    type V = u16;

    closed spec fn view(&self) -> u16 {
        self.bits
    }
}

impl View for Tweaks {
    type V = u16;

    closed spec fn view(&self) -> u16 {
        self.bits
    }
}

impl SkinItems {
    /// The set with no item.
    pub fn empty() -> (r: SkinItems)
        ensures
            r@ == 0,
    {
        SkinItems { bits: 0 }
    }

    /// The set of every item.
    pub fn all() -> (r: SkinItems)
        ensures
            r@ == all_skin_items(),
    {
        SkinItems { bits: 0x3ff }
    }

    /// The set whose bits are `bits` restricted to known items.
    pub fn from_bits_truncate(bits: u16) -> (r: SkinItems)
        ensures
            r@ == bits & all_skin_items(),
    {
        SkinItems { bits: bits & 0x3ff }
    }

    /// The osu!standard elements.
    pub fn standard() -> (r: SkinItems)
        ensures
            r@ == 0x1,
    {
        SkinItems { bits: 0x1 }
    }

    /// The osu!catch elements.
    pub fn catch() -> (r: SkinItems)
        ensures
            r@ == 0x2,
    {
        SkinItems { bits: 0x2 }
    }

    /// The osu!taiko elements.
    pub fn taiko() -> (r: SkinItems)
        ensures
            r@ == 0x4,
    {
        SkinItems { bits: 0x4 }
    }

    /// The osu!mania elements.
    pub fn mania() -> (r: SkinItems)
        ensures
            r@ == 0x8,
    {
        SkinItems { bits: 0x8 }
    }

    /// Animation frames.
    pub fn animations() -> (r: SkinItems)
        ensures
            r@ == 0x10,
    {
        SkinItems { bits: 0x10 }
    }

    /// High-definition (`@2x`) images.
    pub fn hd_images() -> (r: SkinItems)
        ensures
            r@ == 0x20,
    {
        SkinItems { bits: 0x20 }
    }

    /// Standard-definition images.
    pub fn sd_images() -> (r: SkinItems)
        ensures
            r@ == 0x40,
    {
        SkinItems { bits: 0x40 }
    }

    /// Sounds.
    pub fn audio() -> (r: SkinItems)
        ensures
            r@ == 0x80,
    {
        SkinItems { bits: 0x80 }
    }

    /// Files for osu!lazer (JSON configuration).
    pub fn lazer_files() -> (r: SkinItems)
        ensures
            r@ == 0x100,
    {
        SkinItems { bits: 0x100 }
    }

    /// Prefixed element sets.
    pub fn prefixes() -> (r: SkinItems)
        ensures
            r@ == 0x200,
    {
        SkinItems { bits: 0x200 }
    }

    /// The raw bits of the set.
    pub fn bits(&self) -> (r: u16)
        ensures
            r == self@,
    {
        self.bits
    }

    /// Whether every item of `other` is in this set.
    pub fn contains(&self, other: SkinItems) -> (r: bool)
        ensures
            r == (self@ & other@ == other@),
    {
        self.bits & other.bits == other.bits
    }

    /// Adds every item of `other` to this set.
    pub fn insert(&mut self, other: SkinItems)
        ensures
            final(self)@ == old(self)@ | other@,
    {
        self.bits = self.bits | other.bits;
    }

    /// The items of either set.
    pub fn union(self, other: SkinItems) -> (r: SkinItems)
        ensures
            r@ == self@ | other@,
    {
        SkinItems { bits: self.bits | other.bits }
    }

    /// Whether every known item is in this set.
    pub fn is_all(&self) -> (r: bool)
        ensures
            r == (all_skin_items() | self@ == self@),
    {
        0x3ff | self.bits == self.bits
    }

    /// Whether this set has no item.
    pub fn is_empty(&self) -> (r: bool)
        ensures
            r == (self@ == 0),
    {
        self.bits == 0
    }
}

impl Tweaks {
    /// The set with no tweak.
    pub fn empty() -> (r: Tweaks)
        ensures
            r@ == 0,
    {
        Tweaks { bits: 0 }
    }

    /// The set of every tweak.
    pub fn all() -> (r: Tweaks)
        ensures
            r@ == all_tweaks(),
    {
        Tweaks { bits: 0x3f }
    }

    /// The set whose bits are `bits` restricted to known tweaks.
    pub fn from_bits_truncate(bits: u16) -> (r: Tweaks)
        ensures
            r@ == bits & all_tweaks(),
    {
        Tweaks { bits: bits & 0x3f }
    }

    /// Triple stacking.
    pub fn triple_stack() -> (r: Tweaks)
        ensures
            r@ == 0x1,
    {
        Tweaks { bits: 0x1 }
    }

    /// Instant fade of hit objects.
    pub fn instant_fade() -> (r: Tweaks)
        ensures
            r@ == 0x2,
    {
        Tweaks { bits: 0x2 }
    }

    /// No combo colours.
    pub fn remove_combo_colours() -> (r: Tweaks)
        ensures
            r@ == 0x4,
    {
        Tweaks { bits: 0x4 }
    }

    /// No cursor trail.
    pub fn remove_cursortrail() -> (r: Tweaks)
        ensures
            r@ == 0x8,
    {
        Tweaks { bits: 0x8 }
    }

    /// No follow points.
    pub fn remove_followpoints() -> (r: Tweaks)
        ensures
            r@ == 0x10,
    {
        Tweaks { bits: 0x10 }
    }

    /// No hit circles.
    pub fn remove_hitcircles() -> (r: Tweaks)
        ensures
            r@ == 0x20,
    {
        Tweaks { bits: 0x20 }
    }

    /// The raw bits of the set.
    pub fn bits(&self) -> (r: u16)
        ensures
            r == self@,
    {
        self.bits
    }

    /// Whether every tweak of `other` is in this set.
    pub fn contains(&self, other: Tweaks) -> (r: bool)
        ensures
            r == (self@ & other@ == other@),
    {
        self.bits & other.bits == other.bits
    }

    /// Adds every tweak of `other` to this set.
    pub fn insert(&mut self, other: Tweaks)
        ensures
            final(self)@ == old(self)@ | other@,
    {
        self.bits = self.bits | other.bits;
    }

    /// The tweaks of either set.
    pub fn union(self, other: Tweaks) -> (r: Tweaks)
        ensures
            r@ == self@ | other@,
    {
        Tweaks { bits: self.bits | other.bits }
    }

    /// Whether every known tweak is in this set.
    pub fn is_all(&self) -> (r: bool)
        ensures
            r == (all_tweaks() | self@ == self@),
    {
        0x3f | self.bits == self.bits
    }

    /// Whether this set has no tweak.
    pub fn is_empty(&self) -> (r: bool)
        ensures
            r == (self@ == 0),
    {
        self.bits == 0
    }
}

/// The two word lists that the command line accepts.
#[derive(Debug, Clone, Copy, PartialEq, Eq, Structural)]
pub enum Vocabulary {
    SkinItems,
    Tweaks,
}

/// What one comma-separated word of an option means.
#[derive(Debug, Clone, Copy, PartialEq, Eq, Structural)]
pub enum ListWord {
    /// Adds these flag bits.
    Flags(u16),
    /// Stops reading: the answer is every item.
    Everything,
    /// Stops reading: the answer is no item.
    Nothing,
    /// Not a word of the vocabulary.
    Invalid,
}

/// The meaning of a (trimmed) word in a vocabulary.
pub open spec fn word_meaning(v: Vocabulary, w: Seq<char>) -> ListWord {
    match v {
        Vocabulary::SkinItems => {
            if w == "standard"@ {
                ListWord::Flags(0x1)
            } else if w == "catch"@ {
                ListWord::Flags(0x2)
            } else if w == "taiko"@ {
                ListWord::Flags(0x4)
            } else if w == "mania"@ {
                ListWord::Flags(0x8)
            } else if w == "animations"@ {
                ListWord::Flags(0x10)
            } else if w == "hd-images"@ {
                ListWord::Flags(0x20)
            } else if w == "sd-images"@ {
                ListWord::Flags(0x40)
            } else if w == "audio"@ {
                ListWord::Flags(0x80)
            } else if w == "lazer-files"@ {
                ListWord::Flags(0x100)
            } else if w == "prefixes"@ {
                ListWord::Flags(0x200)
            } else if w == "all"@ {
                ListWord::Everything
            } else if w == "none"@ {
                ListWord::Nothing
            } else {
                ListWord::Invalid
            }
        },
        Vocabulary::Tweaks => {
            if w == "high-ar"@ {
                ListWord::Flags(0x7)
            } else if w == "triple-stack"@ {
                ListWord::Flags(0x1)
            } else if w == "insta-fade"@ {
                ListWord::Flags(0x2)
            } else if w == "remove-combo-colours"@ {
                ListWord::Flags(0x4)
            } else if w == "remove-followpoints"@ {
                ListWord::Flags(0x10)
            } else if w == "remove-hitcircles"@ {
                ListWord::Flags(0x20)
            } else if w == ""@ {
                ListWord::Flags(0x0)
            } else {
                ListWord::Invalid
            }
        },
    }
}

/// Reads the pieces of an option from left to right, starting from the flags `acc`.
/// An `Err` carries the first piece, untrimmed, that is not a word of the vocabulary.
pub open spec fn read_words(v: Vocabulary, parts: Seq<Seq<char>>, acc: u16) -> Result<u16, Seq<char>>
    decreases parts.len(),
{
    if parts.len() == 0 {
        Ok(acc)
    } else {
        match word_meaning(v, trim(parts[0])) {
            ListWord::Flags(f) => read_words(v, parts.drop_first(), acc | f),
            ListWord::Everything => Ok(all_skin_items()),
            ListWord::Nothing => Ok(0),
            ListWord::Invalid => Err(parts[0]),
        }
    }
}

/// The flags that a comma-separated option `s` stands for, or the offending piece.
pub open spec fn parsed_flags(v: Vocabulary, s: Seq<char>) -> Result<u16, Seq<char>> {
    read_words(v, split_commas(s), 0)
}

/// The message for a piece that is not a known word.
pub open spec fn invalid_word_message(part: Seq<char>) -> Seq<char> {
    "invalid skin item: "@ + part
}

fn word_at(v: Vocabulary, chars: &Vec<char>, a: usize, b: usize) -> (r: ListWord)
    requires
        a <= b <= chars@.len(),
    ensures
        r == word_meaning(v, chars@.subrange(a as int, b as int)),
{
    match v {
        Vocabulary::SkinItems => {
            if run_equals(chars, a, b, "standard") {
                ListWord::Flags(0x1)
            } else if run_equals(chars, a, b, "catch") {
                ListWord::Flags(0x2)
            } else if run_equals(chars, a, b, "taiko") {
                ListWord::Flags(0x4)
            } else if run_equals(chars, a, b, "mania") {
                ListWord::Flags(0x8)
            } else if run_equals(chars, a, b, "animations") {
                ListWord::Flags(0x10)
            } else if run_equals(chars, a, b, "hd-images") {
                ListWord::Flags(0x20)
            } else if run_equals(chars, a, b, "sd-images") {
                ListWord::Flags(0x40)
            } else if run_equals(chars, a, b, "audio") {
                ListWord::Flags(0x80)
            } else if run_equals(chars, a, b, "lazer-files") {
                ListWord::Flags(0x100)
            } else if run_equals(chars, a, b, "prefixes") {
                ListWord::Flags(0x200)
            } else if run_equals(chars, a, b, "all") {
                ListWord::Everything
            } else if run_equals(chars, a, b, "none") {
                ListWord::Nothing
            } else {
                ListWord::Invalid
            }
        },
        Vocabulary::Tweaks => {
            if run_equals(chars, a, b, "high-ar") {
                ListWord::Flags(0x7)
            } else if run_equals(chars, a, b, "triple-stack") {
                ListWord::Flags(0x1)
            } else if run_equals(chars, a, b, "insta-fade") {
                ListWord::Flags(0x2)
            } else if run_equals(chars, a, b, "remove-combo-colours") {
                ListWord::Flags(0x4)
            } else if run_equals(chars, a, b, "remove-followpoints") {
                ListWord::Flags(0x10)
            } else if run_equals(chars, a, b, "remove-hitcircles") {
                ListWord::Flags(0x20)
            } else if run_equals(chars, a, b, "") {
                ListWord::Flags(0x0)
            } else {
                ListWord::Invalid
            }
        },
    }
}

/// Reads a comma-separated option in vocabulary `v`.
fn parse_flag_list(s: &str, v: Vocabulary) -> (r: Result<u16, String>)
    ensures
        match parsed_flags(v, s@) {
            Ok(bits) => r == Ok::<u16, String>(bits),
            Err(part) => r is Err && r->Err_0@ == invalid_word_message(part),
        },
{
    let chars = chars_of(s);
    let bounds = comma_bounds(&chars);
    let ghost parts = split_commas(s@);
    let mut acc: u16 = 0;
    let mut k: usize = 0;
    assert(parts.skip(0) =~= parts);
    while k < bounds.len()
        invariant
            chars@ == s@,
            parts == split_commas(chars@),
            bounds@.len() == parts.len(),
            forall|j: int|
                0 <= j < bounds@.len() ==> {
                    &&& (#[trigger] bounds@[j]).0 <= bounds@[j].1 <= chars@.len()
                    &&& chars@.subrange(bounds@[j].0 as int, bounds@[j].1 as int) == parts[j]
                },
            k <= bounds@.len(),
            parsed_flags(v, s@) == read_words(v, parts.skip(k as int), acc),
        decreases bounds.len() - k,
    {
        let (start, end) = bounds[k];
        let (a, b) = trimmed_bounds(&chars, start, end);
        let ghost rest = parts.skip(k as int);
        assert(rest[0] == parts[k as int]);
        assert(rest.drop_first() =~= parts.skip(k + 1));
        match word_at(v, &chars, a, b) {
            ListWord::Flags(f) => {
                acc = acc | f;
            },
            ListWord::Everything => {
                return Ok(0x3ff);
            },
            ListWord::Nothing => {
                return Ok(0);
            },
            ListWord::Invalid => {
                let piece = s.substring_char(start, end);
                let message = String::from_str("invalid skin item: ").concat(piece);
                return Err(message);
            },
        }
        k = k + 1;
    }
    assert(parts.skip(k as int) =~= Seq::<Seq<char>>::empty());
    Ok(acc)
}

/// Reads the value of `--keep`: comma-separated skin item names, `all` or `none`.
/// Words are read from the left; `all` and `none` end the reading at once.
pub fn parse_skin_items(s: &str) -> (r: Result<SkinItems, String>)
    ensures
        match parsed_flags(Vocabulary::SkinItems, s@) {
            Ok(bits) => r matches Ok(items) && items@ == bits,
            Err(part) => r matches Err(message) && message@ == invalid_word_message(part),
        },
{
    match parse_flag_list(s, Vocabulary::SkinItems) {
        Ok(bits) => Ok(SkinItems { bits }),
        Err(message) => Err(message),
    }
}

/// Reads the value of `--tweaks`: comma-separated tweak names, where `high-ar`
/// stands for triple stack, instant fade and no combo colours together.
pub fn parse_tweaks(s: &str) -> (r: Result<Tweaks, String>)
    ensures
        match parsed_flags(Vocabulary::Tweaks, s@) {
            Ok(bits) => r matches Ok(tweaks) && tweaks@ == bits,
            Err(part) => r matches Err(message) && message@ == invalid_word_message(part),
        },
{
    match parse_flag_list(s, Vocabulary::Tweaks) {
        Ok(bits) => Ok(Tweaks { bits }),
        Err(message) => Err(message),
    }
}

/// The value that stands for "no output path given": the output then goes
/// next to the skin, with the extension `opt.osk`.
pub const OUTPUT_PATH_PLACEHOLDER: &'static str = "OUTPUT_PATH";

/// The extension of an optimised skin derived from its input path.
pub const OUTPUT_EXTENSION: &'static str = "opt.osk";

/// The options the optimiser runs with.
#[derive(Debug, Clone)]
pub struct Args {
    /// Skin items to keep.
    pub keep: SkinItems,
    /// Gameplay tweaks to apply.
    pub tweaks: Tweaks,
    /// The skin archive to read.
    pub skin_path: String,
    /// Where to write the result; the placeholder asks for a path next to the skin.
    pub output_path: String,
    /// Worker threads; 0 lets the thread pool decide.
    pub threads: usize,
    /// JPEG quality, 1 to 100.
    pub image_quality: u8,
    /// Audio quality, 1 to 100.
    pub audio_quality: u8,
}

/// Why a set of arguments is refused.
#[derive(Debug, Clone, Copy, PartialEq, Eq, Structural)]
pub enum ArgsError {
    TweaksUnimplemented,
    TripleStackNeedsNoComboColours,
}

impl ArgsError {
    /// The message shown to the user.
    pub fn message(&self) -> (r: &str)
        ensures
            r@ == args_error_message(*self),
    {
        match self {
            ArgsError::TweaksUnimplemented => "tweaks are unimplemented so far.",
            ArgsError::TripleStackNeedsNoComboColours => "triple stack with instant fade does not support combo colours.",
        }
    }
}

/// The message of each refusal.
pub open spec fn args_error_message(e: ArgsError) -> Seq<char> {
    match e {
        ArgsError::TweaksUnimplemented => "tweaks are unimplemented so far."@,
        ArgsError::TripleStackNeedsNoComboColours => "triple stack with instant fade does not support combo colours."@,
    }
}

/// The output path that the arguments lead to.
pub open spec fn resolved_output_path(skin_path: Seq<char>, output_path: Seq<char>) -> Seq<char> {
    if output_path == OUTPUT_PATH_PLACEHOLDER@ {
        path_with_extension(skin_path, OUTPUT_EXTENSION@)
    } else {
        output_path
    }
}

/// The refusal, if any, that a set of tweaks meets. Any tweak at all is refused, since
/// none is implemented; the combination check after it stays for when they are.
pub open spec fn tweaks_refusal(tweaks: u16) -> Option<ArgsError> {
    if tweaks != 0 {
        Some(ArgsError::TweaksUnimplemented)
    } else if tweaks & 0x3 == 0x3 && tweaks & 0x4 != 0x4 {
        Some(ArgsError::TripleStackNeedsNoComboColours)
    } else {
        None
    }
}

/// Fills in the output path when the placeholder stands there.
pub fn resolve_output_path(skin_path: &str, output_path: &str) -> (r: String)
    ensures
        r@ == resolved_output_path(skin_path@, output_path@),
{
    let chars = chars_of(output_path);
    assert(chars@.subrange(0, chars@.len() as int) =~= output_path@);
    if run_equals(&chars, 0, chars.len(), OUTPUT_PATH_PLACEHOLDER) {
        proof {
            reveal_strlit("opt.osk");
        }
        with_extension(skin_path, OUTPUT_EXTENSION)
    } else {
        String::from_str(output_path)
    }
}

impl Args {
    /// Checks the arguments as read from the command line, and fills in the output path.
    pub fn validate(self) -> (r: Result<Args, ArgsError>)
        ensures
            match tweaks_refusal(self.tweaks@) {
                Some(e) => r == Err::<Args, ArgsError>(e),
                None => r matches Ok(args) && {
                    &&& args.keep == self.keep
                    &&& args.tweaks == self.tweaks
                    &&& args.skin_path@ == self.skin_path@
                    &&& args.output_path@ == resolved_output_path(self.skin_path@, self.output_path@)
                    &&& args.threads == self.threads
                    &&& args.image_quality == self.image_quality
                    &&& args.audio_quality == self.audio_quality
                },
            },
    {
        let output_path = resolve_output_path(self.skin_path.as_str(), self.output_path.as_str());
        if !self.tweaks.is_empty() {
            return Err(ArgsError::TweaksUnimplemented);
        }
        let combo = Tweaks::instant_fade().union(Tweaks::triple_stack());
        assert(0x2u16 | 0x1u16 == 0x3u16) by (bit_vector);
        if self.tweaks.contains(combo) && !self.tweaks.contains(Tweaks::remove_combo_colours()) {
            return Err(ArgsError::TripleStackNeedsNoComboColours);
        }
        Ok(Args { output_path, ..self })
    }
}

/// After inserting a set of items, the set contains them.
pub proof fn law_inserted_items_are_contained(items: u16, added: u16)
    ensures
        (items | added) & added == added,
{
    assert((items | added) & added == added) by (bit_vector);
}

/// A single word is read as its meaning: a comma-free option names one word.
pub proof fn law_single_word(v: Vocabulary, w: Seq<char>)
    requires
        comma_free(w),
    ensures
        parsed_flags(v, w) == match word_meaning(v, trim(w)) {
            ListWord::Flags(f) => Ok(0u16 | f),
            ListWord::Everything => Ok(all_skin_items()),
            ListWord::Nothing => Ok(0),
            ListWord::Invalid => Err(w),
        },
{
    lemma_split_comma_free(w);
    reveal_with_fuel(read_words, 2);
    assert(seq![w][0] == w);
    assert(seq![w].drop_first() =~= Seq::<Seq<char>>::empty());
}

/// Two flag words separated by a comma stand for the union of their flags,
/// whichever comes first.
pub proof fn law_two_words_union(v: Vocabulary, a: Seq<char>, b: Seq<char>, fa: u16, fb: u16)
    requires
        comma_free(a),
        comma_free(b),
        word_meaning(v, trim(a)) == ListWord::Flags(fa),
        word_meaning(v, trim(b)) == ListWord::Flags(fb),
    ensures
        parsed_flags(v, a + seq![','] + b) == Ok::<u16, Seq<char>>(fa | fb),
        parsed_flags(v, a + seq![','] + b) == parsed_flags(v, b + seq![','] + a),
{
    lemma_split_after_piece(a, b);
    lemma_split_after_piece(b, a);
    lemma_split_comma_free(a);
    lemma_split_comma_free(b);
    reveal_with_fuel(read_words, 3);
    let pab = seq![a] + seq![b];
    assert(pab[0] == a);
    let pba = seq![b] + seq![a];
    assert(pba[0] == b);
    assert(pab.drop_first()[0] == b);
    assert(pba.drop_first()[0] == a);
    assert(pab.drop_first() =~= seq![b]);
    assert(pba.drop_first() =~= seq![a]);
    assert(seq![a].drop_first() =~= Seq::<Seq<char>>::empty());
    assert(seq![b].drop_first() =~= Seq::<Seq<char>>::empty());
    assert((0u16 | fa) | fb == fa | fb) by (bit_vector);
    assert((0u16 | fb) | fa == fa | fb) by (bit_vector);
}

/// Once `all` or `none` is read, the rest of the option is not looked at.
pub proof fn law_all_or_none_ends_reading(a: Seq<char>, rest: Seq<char>)
    requires
        comma_free(a),
        trim(a) == "all"@ || trim(a) == "none"@,
    ensures
        trim(a) == "all"@ ==> parsed_flags(Vocabulary::SkinItems, a + seq![','] + rest) == Ok::<
            u16,
            Seq<char>,
        >(all_skin_items()),
        trim(a) == "none"@ ==> parsed_flags(Vocabulary::SkinItems, a + seq![','] + rest) == Ok::<
            u16,
            Seq<char>,
        >(0),
{
    lemma_split_after_piece(a, rest);
    assert((seq![a] + split_commas(rest))[0] == a);
    reveal_strlit("all");
    reveal_strlit("none");
    reveal_strlit("standard");
    reveal_strlit("catch");
    reveal_strlit("taiko");
    reveal_strlit("mania");
    reveal_strlit("animations");
    reveal_strlit("hd-images");
    reveal_strlit("sd-images");
    reveal_strlit("audio");
    reveal_strlit("lazer-files");
    reveal_strlit("prefixes");
    assert(word_meaning(Vocabulary::SkinItems, "all"@) == ListWord::Everything) by {
        assert("all"@.len() == 3);
        assert("standard"@.len() == 8 && "prefixes"@.len() == 8);
        assert("catch"@.len() == 5 && "taiko"@.len() == 5 && "mania"@.len() == 5 && "audio"@.len() == 5);
        assert("animations"@.len() == 10 && "lazer-files"@.len() == 11);
        assert("hd-images"@.len() == 9 && "sd-images"@.len() == 9);
    }
    assert(word_meaning(Vocabulary::SkinItems, "none"@) == ListWord::Nothing) by {
        assert("none"@.len() == 4 && "all"@.len() == 3);
        assert("standard"@.len() == 8 && "prefixes"@.len() == 8);
        assert("catch"@.len() == 5 && "taiko"@.len() == 5 && "mania"@.len() == 5 && "audio"@.len() == 5);
        assert("animations"@.len() == 10 && "lazer-files"@.len() == 11);
        assert("hd-images"@.len() == 9 && "sd-images"@.len() == 9);
    }
}

/// Only an empty set of tweaks passes validation, so the check of the tweak
/// combination is never the one that refuses.
pub proof fn law_only_empty_tweaks_pass(tweaks: u16)
    ensures
        tweaks_refusal(tweaks) is None <==> tweaks == 0,
        tweaks_refusal(tweaks) != Some(ArgsError::TripleStackNeedsNoComboColours),
{
    assert(0u16 & 0x3u16 == 0u16) by (bit_vector);
}

} // verus!
