use katex_gdef::font_extract;

#[test]
fn no_root_marker_yields_empty_set() {
    let fonts = font_extract("<div><span class=\"mathbf\">x</span></div>");
    assert!(fonts.is_empty());
}

#[test]
fn plain_text_without_markup_yields_empty_set() {
    let fonts = font_extract("E = mc^2");
    assert!(fonts.is_empty());
}

#[test]
fn whitespace_only_root_yields_empty_set() {
    let fonts = font_extract("<span class=\"katex-html\">  \t\n  </span>");
    assert!(fonts.is_empty());
}

#[test]
fn whitespace_only_nested_spans_yield_empty_set() {
    let fonts = font_extract(
        "<span class=\"katex-html\"><span class=\"mathbf\"> </span><span class=\"mathcal\">\n</span></span>",
    );
    assert!(fonts.is_empty());
}

#[test]
fn text_in_root_classifies_as_main_regular() {
    let mut fonts = font_extract("<span class=\"katex-html\">x</span>");
    assert_eq!(fonts.drain(), vec!["KaTeX_Main-Regular"]);
}

#[test]
fn bold_span_classifies_as_main_bold() {
    let mut fonts =
        font_extract("<span class=\"katex-html\"><span class=\"mathbf\">x</span></span>");
    assert_eq!(fonts.drain(), vec!["KaTeX_Main-Bold"]);
}

#[test]
fn inherited_multiplier_fires_delim_size_rule_on_descendant() {
    // the outer span carries both markers; the inner descendant is not
    // itself delimiter-sizing, yet the inherited marker lets delim-size4
    // select the Size4 family
    let html = "<span class=\"katex-html\"><span class=\"delimsizing mult\"><span class=\"vlist\"><span class=\"delim-size4\">(</span></span></span></span>";
    let mut fonts = font_extract(html);
    assert_eq!(fonts.drain(), vec!["KaTeX_Size4-Regular"]);
}

#[test]
fn delim_size_rule_needs_the_inherited_marker() {
    let html = "<span class=\"katex-html\"><span class=\"delim-size4\">(</span></span>";
    let mut fonts = font_extract(html);
    assert_eq!(fonts.drain(), vec!["KaTeX_Main-Regular"]);
}

#[test]
fn size_rule_needs_delimiter_sizing_element() {
    let plain = font_extract("<span class=\"katex-html\"><span class=\"size1\">(</span></span>");
    let mut plain = plain;
    assert_eq!(plain.drain(), vec!["KaTeX_Main-Regular"]);
    let mut sized =
        font_extract("<span class=\"katex-html\"><span class=\"delimsizing size1\">(</span></span>");
    assert_eq!(sized.drain(), vec!["KaTeX_Size1-Regular"]);
}

#[test]
fn op_symbol_rules_select_size_families() {
    let mut small =
        font_extract("<span class=\"katex-html\"><span class=\"op-symbol small-op\">∑</span></span>");
    assert_eq!(small.drain(), vec!["KaTeX_Size1-Regular"]);
    let mut large =
        font_extract("<span class=\"katex-html\"><span class=\"op-symbol large-op\">∑</span></span>");
    assert_eq!(large.drain(), vec!["KaTeX_Size2-Regular"]);
}

#[test]
fn extraction_stops_when_the_root_subtree_closes() {
    // the second math block is not revisited by the same call
    let html = "<span class=\"katex-html\"><span class=\"mathbf\">x</span></span><span class=\"katex-html\"><span class=\"mathcal\">y</span></span>";
    let mut fonts = font_extract(html);
    assert_eq!(fonts.drain(), vec!["KaTeX_Main-Bold"]);
}

#[test]
fn classless_span_inherits_the_parent_descriptor() {
    let html = "<span class=\"katex-html\"><span class=\"mathfrak\"><span>x</span></span></span>";
    let mut fonts = font_extract(html);
    assert_eq!(fonts.drain(), vec!["KaTeX_Fraktur-Regular"]);
}

#[test]
fn sibling_spans_do_not_leak_their_classes() {
    let html = "<span class=\"katex-html\"><span class=\"mathbf\">x</span><span class=\"mathit\">y</span>z</span>";
    let mut fonts = font_extract(html);
    assert_eq!(fonts.drain(), vec!["KaTeX_Main-Bold", "KaTeX_Main-Italic", "KaTeX_Main-Regular"]);
}

#[test]
fn non_span_tags_are_passed_over() {
    let html = "<span class=\"katex-html\"><math><mi>x</mi></math></span>";
    let mut fonts = font_extract(html);
    assert_eq!(fonts.drain(), vec!["KaTeX_Main-Regular"]);
}

#[test]
fn upper_case_span_tags_count_as_spans() {
    let html = "<span class=\"katex-html\"><SPAN class=\"mathscr\">S</SPAN></span>";
    let mut fonts = font_extract(html);
    assert_eq!(fonts.drain(), vec!["KaTeX_Script-Regular"]);
}

#[test]
fn katex_shaped_fixture_marks_italic_variables_and_regular_rest() {
    // the shape KaTeX gives a small equation: variables in mathnormal
    // spans, the relation sign as plain text of the enclosing span
    let html = "<span class=\"katex\"><span class=\"katex-html\" aria-hidden=\"true\">\
        <span class=\"base\">\
        <span class=\"mord mathnormal\" style=\"margin-right:0.05764em;\">E</span>\
        <span class=\"mspace\"> </span>\
        <span class=\"mrel\">=</span>\
        <span class=\"mord mathnormal\">m</span>\
        <span class=\"mord\"><span class=\"mord mathnormal\">c</span>\
        <span class=\"msupsub\"><span class=\"mord\">2</span></span></span>\
        </span></span></span>";
    let mut fonts = font_extract(html);
    assert!(!fonts.is_empty());
    assert_eq!(fonts.drain(), vec!["KaTeX_Main-Regular", "KaTeX_Math-Italic"]);
}

#[test]
fn merged_extractions_accumulate_both_blocks() {
    let first = font_extract("<span class=\"katex-html\"><span class=\"mathbf\">x</span></span>");
    let mut second =
        font_extract("<span class=\"katex-html\"><span class=\"mathcal\">y</span></span>");
    second.merge(first);
    assert_eq!(second.drain(), vec!["KaTeX_Caligraphic-Regular", "KaTeX_Main-Bold"]);
}
