use katex_gdef::font::{font_flag_set, font_stack_set, Font, FontFamilies, UsedFonts};

fn classify(font: Font) -> Vec<&'static str> {
    let mut flags = UsedFonts::default();
    font_flag_set(font, &mut flags);
    flags.drain()
}

#[test]
fn empty_set_is_empty() {
    let u = UsedFonts::default();
    assert!(u.is_empty());
}

#[test]
fn merge_is_commutative() {
    let mut a = UsedFonts::default();
    font_flag_set(Font { family: FontFamilies::AMS, ..Font::default() }, &mut a);
    let mut b = UsedFonts::default();
    font_flag_set(Font { family: FontFamilies::Script, ..Font::default() }, &mut b);
    let mut ab = a;
    ab.merge(b);
    let mut ba = b;
    ba.merge(a);
    assert_eq!(ab, ba);
}

#[test]
fn merge_is_associative() {
    let mut a = UsedFonts::default();
    font_flag_set(Font { family: FontFamilies::AMS, ..Font::default() }, &mut a);
    let mut b = UsedFonts::default();
    font_flag_set(Font { family: FontFamilies::Fraktur, ..Font::default() }, &mut b);
    let mut c = UsedFonts::default();
    font_flag_set(Font { family: FontFamilies::Typewriter, ..Font::default() }, &mut c);
    let mut ab_c = a;
    ab_c.merge(b);
    ab_c.merge(c);
    let mut bc = b;
    bc.merge(c);
    let mut a_bc = a;
    a_bc.merge(bc);
    assert_eq!(ab_c, a_bc);
}

#[test]
fn merge_empty_is_identity() {
    let mut a = UsedFonts::default();
    font_flag_set(Font { family: FontFamilies::Math, ..Font::default() }, &mut a);
    let before = a;
    a.merge(UsedFonts::default());
    assert_eq!(a, before);
    let mut e = UsedFonts::default();
    e.merge(before);
    assert_eq!(e, before);
}

#[test]
fn drain_yields_each_present_once_and_empties() {
    let mut u = UsedFonts::default();
    font_flag_set(Font { family: FontFamilies::AMS, ..Font::default() }, &mut u);
    font_flag_set(Font { family: FontFamilies::Script, ..Font::default() }, &mut u);
    // marking a variant twice must not let it drain twice
    font_flag_set(Font { family: FontFamilies::AMS, ..Font::default() }, &mut u);
    let names = u.drain();
    assert_eq!(names, vec!["KaTeX_AMS-Regular", "KaTeX_Script-Regular"]);
    assert!(u.is_empty());
}

#[test]
fn drain_of_empty_yields_nothing() {
    let mut u = UsedFonts::default();
    let names = u.drain();
    assert!(names.is_empty());
    assert!(u.is_empty());
}

#[test]
fn next_yields_in_enumeration_order() {
    let mut u = UsedFonts::default();
    font_flag_set(Font { family: FontFamilies::Typewriter, ..Font::default() }, &mut u);
    font_flag_set(Font { family: FontFamilies::AMS, ..Font::default() }, &mut u);
    assert_eq!(u.next(), Some("KaTeX_AMS-Regular"));
    assert_eq!(u.next(), Some("KaTeX_Typewriter-Regular"));
    assert_eq!(u.next(), None);
    assert!(u.is_empty());
}

#[test]
fn mathbf_on_default_gives_main_bold() {
    let mut font = Font::default();
    font_stack_set(&mut font, "mathbf", false, false);
    assert_eq!(font.family, FontFamilies::Main);
    assert!(font.bold);
    assert!(!font.italic);
    assert_eq!(classify(font), vec!["KaTeX_Main-Bold"]);
}

#[test]
fn sans_serif_bold_italic_marks_both_variants() {
    let mut font = Font::default();
    font_stack_set(&mut font, "mathsf", false, false);
    font_stack_set(&mut font, "textbf", false, false);
    font_stack_set(&mut font, "textit", false, false);
    assert_eq!(font.family, FontFamilies::SansSerif);
    assert!(font.bold);
    assert!(font.italic);
    assert_eq!(classify(font), vec!["KaTeX_SansSerif-Bold", "KaTeX_SansSerif-Italic"]);
}

#[test]
fn classification_covers_every_family() {
    let d = Font::default();
    assert_eq!(classify(Font { family: FontFamilies::AMS, bold: true, italic: true, ..d }), vec![
        "KaTeX_AMS-Regular"
    ]);
    assert_eq!(classify(Font { family: FontFamilies::Caligraphic, bold: true, ..d }), vec![
        "KaTeX_Caligraphic-Bold"
    ]);
    assert_eq!(classify(Font { family: FontFamilies::Caligraphic, italic: true, ..d }), vec![
        "KaTeX_Caligraphic-Regular"
    ]);
    assert_eq!(classify(Font { family: FontFamilies::Fraktur, bold: true, ..d }), vec![
        "KaTeX_Fraktur-Bold"
    ]);
    assert_eq!(classify(Font { family: FontFamilies::Fraktur, ..d }), vec![
        "KaTeX_Fraktur-Regular"
    ]);
    assert_eq!(classify(Font { family: FontFamilies::Main, ..d }), vec!["KaTeX_Main-Regular"]);
    assert_eq!(classify(Font { family: FontFamilies::Main, bold: true, ..d }), vec![
        "KaTeX_Main-Bold"
    ]);
    assert_eq!(classify(Font { family: FontFamilies::Main, italic: true, ..d }), vec![
        "KaTeX_Main-Italic"
    ]);
    assert_eq!(classify(Font { family: FontFamilies::Main, bold: true, italic: true, ..d }), vec![
        "KaTeX_Main-BoldItalic"
    ]);
    assert_eq!(classify(Font { family: FontFamilies::Math, ..d }), vec!["KaTeX_Math-Italic"]);
    assert_eq!(classify(Font { family: FontFamilies::Math, bold: true, ..d }), vec![
        "KaTeX_Math-BoldItalic"
    ]);
    assert_eq!(classify(Font { family: FontFamilies::SansSerif, ..d }), vec![
        "KaTeX_SansSerif-Regular"
    ]);
    assert_eq!(classify(Font { family: FontFamilies::SansSerif, bold: true, ..d }), vec![
        "KaTeX_SansSerif-Bold"
    ]);
    assert_eq!(classify(Font { family: FontFamilies::SansSerif, italic: true, ..d }), vec![
        "KaTeX_SansSerif-Italic"
    ]);
    assert_eq!(classify(Font { family: FontFamilies::Script, ..d }), vec!["KaTeX_Script-Regular"]);
    assert_eq!(classify(Font { family: FontFamilies::Size1, ..d }), vec!["KaTeX_Size1-Regular"]);
    assert_eq!(classify(Font { family: FontFamilies::Size2, ..d }), vec!["KaTeX_Size2-Regular"]);
    assert_eq!(classify(Font { family: FontFamilies::Size3, ..d }), vec!["KaTeX_Size3-Regular"]);
    assert_eq!(classify(Font { family: FontFamilies::Size4, ..d }), vec!["KaTeX_Size4-Regular"]);
    assert_eq!(classify(Font { family: FontFamilies::Typewriter, ..d }), vec![
        "KaTeX_Typewriter-Regular"
    ]);
}

#[test]
fn size_rules_only_fire_in_their_context() {
    // size rules need a delimiter-sizing element
    let mut font = Font::default();
    font_stack_set(&mut font, "size1", false, false);
    assert_eq!(font.family, FontFamilies::Main);
    font_stack_set(&mut font, "size1", true, false);
    assert_eq!(font.family, FontFamilies::Size1);
    // delim-size rules need the inherited multiplier marker
    let mut font = Font::default();
    font_stack_set(&mut font, "delim-size4", false, false);
    assert_eq!(font.family, FontFamilies::Main);
    font.delimsizing_mult = true;
    font_stack_set(&mut font, "delim-size4", false, false);
    assert_eq!(font.family, FontFamilies::Size4);
    // op rules need an operator-symbol element
    let mut font = Font::default();
    font_stack_set(&mut font, "small-op", false, false);
    assert_eq!(font.family, FontFamilies::Main);
    font_stack_set(&mut font, "small-op", false, true);
    assert_eq!(font.family, FontFamilies::Size1);
    let mut font = Font::default();
    font_stack_set(&mut font, "large-op", false, true);
    assert_eq!(font.family, FontFamilies::Size2);
}

#[test]
fn later_classes_overwrite_earlier_ones() {
    let mut font = Font::default();
    font_stack_set(&mut font, "mathnormal", false, false);
    assert_eq!(font.family, FontFamilies::Math);
    assert!(font.italic);
    font_stack_set(&mut font, "mathrm", false, false);
    assert!(!font.italic);
    font_stack_set(&mut font, "mathtt", false, false);
    assert_eq!(font.family, FontFamilies::Typewriter);
}

#[test]
fn unknown_class_leaves_descriptor_unchanged() {
    let mut font = Font::default();
    let before = font;
    font_stack_set(&mut font, "vlist", false, false);
    assert_eq!(font, before);
}
