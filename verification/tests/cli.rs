use optiosk::cli::{parse_skin_items, parse_tweaks, Args, ArgsError, SkinItems, Tweaks};

fn items(s: &str) -> u16 {
    parse_skin_items(s).expect("valid skin items").bits()
}

fn tweaks(s: &str) -> u16 {
    parse_tweaks(s).expect("valid tweaks").bits()
}

#[test]
fn single_skin_items_map_to_their_flags() {
    assert_eq!(items("standard"), 0x1);
    assert_eq!(items("catch"), 0x2);
    assert_eq!(items("taiko"), 0x4);
    assert_eq!(items("mania"), 0x8);
    assert_eq!(items("animations"), 0x10);
    assert_eq!(items("hd-images"), 0x20);
    assert_eq!(items("sd-images"), 0x40);
    assert_eq!(items("audio"), 0x80);
    assert_eq!(items("lazer-files"), 0x100);
    assert_eq!(items("prefixes"), 0x200);
}

#[test]
fn skin_item_lists_are_unions() {
    assert_eq!(items("standard,catch"), 0x3);
    assert_eq!(items("catch,standard"), 0x3);
    assert_eq!(items("audio, hd-images ,sd-images"), 0xe0);
    assert_eq!(items("standard,standard"), 0x1);
}

#[test]
fn all_and_none_end_the_list() {
    assert!(parse_skin_items("all").unwrap().is_all());
    assert_eq!(items("all"), 0x3ff);
    assert_eq!(items("standard,all,nonsense"), 0x3ff);
    assert!(parse_skin_items("none").unwrap().is_empty());
    assert_eq!(items("standard, none ,nonsense"), 0);
}

#[test]
fn unknown_skin_items_are_reported_untrimmed() {
    assert_eq!(parse_skin_items("bogus"), Err("invalid skin item: bogus".to_string()));
    assert_eq!(parse_skin_items("standard, bogus "), Err("invalid skin item:  bogus ".to_string()));
    assert_eq!(parse_skin_items(""), Err("invalid skin item: ".to_string()));
    assert_eq!(parse_skin_items("standard,"), Err("invalid skin item: ".to_string()));
    assert_eq!(parse_skin_items("Standard"), Err("invalid skin item: Standard".to_string()));
}

#[test]
fn unicode_whitespace_is_trimmed() {
    assert_eq!(items("\u{3000}mania\u{a0}"), 0x8);
    assert_eq!(items("\tmania\n"), 0x8);
}

#[test]
fn tweaks_parse() {
    assert_eq!(tweaks(""), 0);
    assert_eq!(tweaks("high-ar"), 0x7);
    assert_eq!(tweaks("triple-stack"), 0x1);
    assert_eq!(tweaks("insta-fade"), 0x2);
    assert_eq!(tweaks("remove-combo-colours"), 0x4);
    assert_eq!(tweaks("remove-followpoints"), 0x10);
    assert_eq!(tweaks("remove-hitcircles"), 0x20);
    assert_eq!(tweaks("high-ar,remove-hitcircles"), 0x27);
    assert_eq!(tweaks(",,"), 0);
    assert_eq!(parse_tweaks("remove-cursortrail"), Err("invalid skin item: remove-cursortrail".to_string()));
    assert_eq!(parse_tweaks("all"), Err("invalid skin item: all".to_string()));
}

#[test]
fn flag_sets_behave_like_sets() {
    let mut s = SkinItems::empty();
    assert!(s.is_empty());
    s.insert(SkinItems::audio());
    assert!(s.contains(SkinItems::audio()));
    assert!(!s.contains(SkinItems::standard()));
    assert!(!s.is_all());
    assert!(SkinItems::all().contains(s));
    assert_eq!(SkinItems::standard().union(SkinItems::catch()).bits(), 3);
    assert_eq!(SkinItems::from_bits_truncate(0xffff).bits(), 0x3ff);
    let mut t = Tweaks::empty();
    t.insert(Tweaks::remove_cursortrail());
    assert_eq!(t.bits(), 0x8);
    assert!(Tweaks::all().is_all());
    assert_eq!(Tweaks::from_bits_truncate(0xffff).bits(), 0x3f);
}

fn args(tweaks: Tweaks, output: &str) -> Args {
    Args {
        keep: SkinItems::all(),
        tweaks,
        skin_path: "skins/my-skin.osk".to_string(),
        output_path: output.to_string(),
        threads: 0,
        image_quality: 80,
        audio_quality: 1,
    }
}

#[test]
fn validation_fills_in_the_output_path() {
    let a = args(Tweaks::empty(), "OUTPUT_PATH").validate().unwrap();
    assert_eq!(a.output_path, "skins/my-skin.opt.osk");
    assert_eq!(a.skin_path, "skins/my-skin.osk");
    let b = args(Tweaks::empty(), "out.osk").validate().unwrap();
    assert_eq!(b.output_path, "out.osk");
    let c = optiosk::cli::resolve_output_path("skin", "OUTPUT_PATH");
    assert_eq!(c, "skin.opt.osk");
}

#[test]
fn validation_refuses_any_tweak() {
    let e = args(Tweaks::remove_hitcircles(), "x").validate().unwrap_err();
    assert_eq!(e, ArgsError::TweaksUnimplemented);
    assert_eq!(e.message(), "tweaks are unimplemented so far.");
    let combo = Tweaks::triple_stack().union(Tweaks::instant_fade());
    assert_eq!(args(combo, "x").validate().unwrap_err(), ArgsError::TweaksUnimplemented);
    assert_eq!(
        ArgsError::TripleStackNeedsNoComboColours.message(),
        "triple stack with instant fade does not support combo colours."
    );
}
