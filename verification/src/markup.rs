//! The font-usage extractor: walks the token stream of a rendered markup
//! fragment, keeps a stack of font descriptors for the nested `span`
//! elements below the first root marker span, and accumulates the set of
//! font variants that classify its non-blank text.

use vstd::prelude::*;
use vstd::utf8::{decode_utf8, valid_utf8};

use crate::font::{
    apply_class, default_font, flag_set_spec, font_flag_set, font_stack_set, uf_empty, Font,
    UsedFonts,
};
use crate::text::{
    all_ws_bytes, bytes_all_ws, class_token_spans, lower_byte, span_text, split_ws, str_eq,
    utf8_to_string,
};

verus! {

/// One event of the flat markup token stream.
#[derive(Debug, Clone, PartialEq, Eq)]
pub enum MarkupToken {
    /// A start tag with its name and its attributes, each a name and a
    /// value, in document order.
    StartTag { name: Vec<u8>, attrs: Vec<(Vec<u8>, Vec<u8>)> },
    /// An end tag with its name.
    EndTag { name: Vec<u8> },
    /// A text node.
    Text { text: Vec<u8> },
    /// A comment.
    Comment { text: Vec<u8> },
    /// A document type declaration.
    Doctype,
    /// A place where the tokenizer recovered from malformed markup.
    Malformed,
}

/// The token stream of a markup text: what the tokenizer yields, a
/// function of the text alone.
pub uninterp spec fn tokens_of(s: Seq<char>) -> Seq<MarkupToken>;

/// Relies on html5gum's `Tokenizer`: it turns markup text into the flat
/// stream of tags, text nodes and the rest. The stream depends on the text
/// alone; it is named `tokens_of` and nothing more is assumed of it.
#[verifier::external_body]
fn tokenize(html: &str) -> (r: Vec<MarkupToken>)
    ensures
        r@ == tokens_of(html@),
{
    html5gum::Tokenizer::new(html).flatten().map(|t| match t {
        html5gum::Token::StartTag(tag) => MarkupToken::StartTag {
            name: tag.name.0,
            attrs: tag.attributes.into_iter().map(|(k, v)| (k.0, v.value.0)).collect(),
        },
        html5gum::Token::EndTag(tag) => MarkupToken::EndTag { name: tag.name.0 },
        html5gum::Token::String(text) => MarkupToken::Text { text: text.value.0 },
        html5gum::Token::Comment(text) => MarkupToken::Comment { text: text.value.0 },
        html5gum::Token::Doctype(_) => MarkupToken::Doctype,
        html5gum::Token::Error(_) => MarkupToken::Malformed,
    }).collect()
}

/// The attribute name whose value lists an element's classes, as bytes:
/// `class`.
pub open spec fn class_key() -> Seq<u8> {
    seq![99u8, 108u8, 97u8, 115u8, 115u8]
}

/// The tag name that opens or closes one element of the walk, as bytes:
/// `span`.
pub open spec fn span_key() -> Seq<u8> {
    seq![115u8, 112u8, 97u8, 110u8]
}

/// Whether `name`, lowered ASCII-wise, is the `span` tag name.
pub open spec fn spec_is_span(name: Seq<u8>) -> bool {
    name.map_values(|b: u8| lower_byte(b)) == span_key()
}

/// The value of the first `class` attribute at or after position `i`.
pub open spec fn class_attr_from(attrs: Seq<(Vec<u8>, Vec<u8>)>, i: int) -> Option<Seq<u8>>
    decreases attrs.len() - i,
{
    if i < 0 || i >= attrs.len() {
        Option::None
    } else if attrs[i].0@ == class_key() {
        Option::Some(attrs[i].1@)
    } else {
        class_attr_from(attrs, i + 1)
    }
}

/// The class tokens of a start tag: its `class` attribute decoded and
/// split on white space; an absent or undecodable attribute counts as no
/// classes.
pub open spec fn spec_class_tokens(attrs: Seq<(Vec<u8>, Vec<u8>)>) -> Seq<Seq<char>> {
    match class_attr_from(attrs, 0) {
        Option::None => Seq::empty(),
        Option::Some(bytes) => if valid_utf8(bytes) {
            split_ws(decode_utf8(bytes))
        } else {
            Seq::empty()
        },
    }
}

/// The rule table applied to `f`, token by token in textual order.
pub open spec fn spec_apply_classes(
    f: Font,
    toks: Seq<Seq<char>>,
    delimsizing: bool,
    op_symbol: bool,
) -> Font
    decreases toks.len(),
{
    if toks.len() == 0 {
        f
    } else {
        spec_apply_classes(
            apply_class(f, toks[0], delimsizing, op_symbol),
            toks.drop_first(),
            delimsizing,
            op_symbol,
        )
    }
}

/// The descriptor a child span derives from its parent's: the multiplier
/// marker is inherited, or set when the element carries both the
/// delimiter-sizing and the multiplier class, and then every class token
/// is applied in order.
pub open spec fn spec_child_font(parent: Font, attrs: Seq<(Vec<u8>, Vec<u8>)>) -> Font {
    let toks = spec_class_tokens(attrs);
    let delimsizing = toks.contains("delimsizing"@);
    let mult = toks.contains("mult"@);
    let op_symbol = toks.contains("op-symbol"@);
    let base = Font { delimsizing_mult: parent.delimsizing_mult || (delimsizing && mult), ..parent };
    spec_apply_classes(base, toks, delimsizing, op_symbol)
}

/// Whether a token is the root marker: a `span` start tag whose class
/// tokens hold `katex-html`.
pub open spec fn spec_is_root(t: MarkupToken) -> bool {
    match t {
        MarkupToken::StartTag { name, attrs } => spec_is_span(name@) && spec_class_tokens(
            attrs@,
        ).contains("katex-html"@),
        _ => false,
    }
}

/// The position of the first root marker at or after `i`.
pub open spec fn find_root(toks: Seq<MarkupToken>, i: int) -> Option<int>
    decreases toks.len() - i,
{
    if i < 0 || i >= toks.len() {
        Option::None
    } else if spec_is_root(toks[i]) {
        Option::Some(i)
    } else {
        find_root(toks, i + 1)
    }
}

/// Whether a token is a text node whose content is not blank: the tokens
/// that mark a variant.
pub open spec fn is_marking_text(t: MarkupToken) -> bool {
    match t {
        MarkupToken::Text { text } => !all_ws_bytes(text@),
        _ => false,
    }
}

/// One step per token: the set accumulated from position `i` on, given the
/// stack of descriptors of the open spans. A `span` start pushes the
/// derived child descriptor; a `span` end pops, and ends the walk when it
/// closes the root's own frame; non-blank text classifies the top
/// descriptor; every other token is passed over.
pub open spec fn walk(toks: Seq<MarkupToken>, i: int, stack: Seq<Font>, acc: UsedFonts) -> UsedFonts
    decreases toks.len() - i,
{
    if i < 0 || i >= toks.len() || stack.len() == 0 {
        acc
    } else {
        match toks[i] {
            MarkupToken::StartTag { name, attrs } => if spec_is_span(name@) {
                walk(toks, i + 1, stack.push(spec_child_font(stack.last(), attrs@)), acc)
            } else {
                walk(toks, i + 1, stack, acc)
            },
            MarkupToken::EndTag { name } => if spec_is_span(name@) {
                if stack.len() == 1 {
                    acc
                } else {
                    walk(toks, i + 1, stack.drop_last(), acc)
                }
            } else {
                walk(toks, i + 1, stack, acc)
            },
            MarkupToken::Text { text } => if !all_ws_bytes(text@) {
                walk(toks, i + 1, stack, flag_set_spec(stack.last(), acc))
            } else {
                walk(toks, i + 1, stack, acc)
            },
            _ => walk(toks, i + 1, stack, acc),
        }
    }
}

/// The font variants a token stream uses: nothing without a root marker,
/// else the walk of the root's subtree from one default descriptor.
pub open spec fn extract_spec(toks: Seq<MarkupToken>) -> UsedFonts {
    match find_root(toks, 0) {
        Option::None => uf_empty(),
        Option::Some(k) => walk(toks, k + 1, seq![default_font()], uf_empty()),
    }
}

/// The ASCII lower-case form of one byte.
fn lower_u8(b: u8) -> (r: u8)
    ensures
        r == lower_byte(b),
{
    if b >= 65 && b <= 90 {
        b + 32
    } else {
        b
    }
}

/// Decides `spec_is_span`.
fn is_span_name(name: &Vec<u8>) -> (r: bool)
    ensures
        r == spec_is_span(name@),
{
    proof {
        assert(name@.map_values(|b: u8| lower_byte(b)).len() == name@.len());
    }
    if name.len() != 4 {
        return false;
    }
    let r = lower_u8(name[0]) == 115 && lower_u8(name[1]) == 112 && lower_u8(name[2]) == 97
        && lower_u8(name[3]) == 110;
    proof {
        let m = name@.map_values(|b: u8| lower_byte(b));
        assert(m[0] == lower_byte(name@[0]));
        assert(m[1] == lower_byte(name@[1]));
        assert(m[2] == lower_byte(name@[2]));
        assert(m[3] == lower_byte(name@[3]));
        assert(span_key()[0] == 115u8 && span_key()[1] == 112u8 && span_key()[2] == 97u8
            && span_key()[3] == 110u8);
        if r {
            assert(m =~= span_key());
        }
    }
    r
}

/// Decides whether `k` is the `class` attribute name.
fn is_class_key(k: &Vec<u8>) -> (r: bool)
    ensures
        r == (k@ == class_key()),
{
    if k.len() != 5 {
        return false;
    }
    let r = k[0] == 99 && k[1] == 108 && k[2] == 97 && k[3] == 115 && k[4] == 115;
    proof {
        assert(class_key()[0] == 99u8 && class_key()[1] == 108u8 && class_key()[2] == 97u8
            && class_key()[3] == 115u8 && class_key()[4] == 115u8);
        if r {
            assert(k@ =~= class_key());
        }
    }
    r
}

/// The value of the first `class` attribute, if any.
fn class_attr<'a>(attrs: &'a Vec<(Vec<u8>, Vec<u8>)>) -> (r: Option<&'a Vec<u8>>)
    ensures
        match r {
            Option::Some(v) => class_attr_from(attrs@, 0) == Option::Some(v@),
            Option::None => class_attr_from(attrs@, 0) is None,
        },
{
    let mut i: usize = 0;
    while i < attrs.len()
        invariant
            i <= attrs@.len(),
            class_attr_from(attrs@, 0) == class_attr_from(attrs@, i as int),
        decreases attrs@.len() - i,
    {
        if is_class_key(&attrs[i].0) {
            return Some(&attrs[i].1);
        }
        i = i + 1;
    }
    None
}

/// Whether any of the spanned tokens of `s` equals `lit`.
fn spans_contain(s: &str, spans: &Vec<(usize, usize)>, lit: &str) -> (r: bool)
    requires
        spans@.map_values(|p: (usize, usize)| span_text(s@, p)) == split_ws(s@),
        forall|k: int| 0 <= k < spans@.len() ==> 0 <= #[trigger] spans@[k].0 <= spans@[k].1
            <= s@.len(),
    ensures
        r == split_ws(s@).contains(lit@),
{
    let mut k: usize = 0;
    while k < spans.len()
        invariant
            k <= spans@.len(),
            spans@.map_values(|p: (usize, usize)| span_text(s@, p)) == split_ws(s@),
            forall|j: int| 0 <= j < spans@.len() ==> 0 <= #[trigger] spans@[j].0 <= spans@[j].1
                <= s@.len(),
            forall|j: int| 0 <= j < k ==> split_ws(s@)[j] != lit@,
        decreases spans@.len() - k,
    {
        let p = spans[k];
        let tok = s.substring_char(p.0, p.1);
        if str_eq(tok, lit) {
            proof {
                assert(split_ws(s@)[k as int] == span_text(s@, spans@[k as int]));
                assert(split_ws(s@).contains(lit@));
            }
            return true;
        }
        proof {
            assert(split_ws(s@)[k as int] == span_text(s@, spans@[k as int]));
        }
        k = k + 1;
    }
    proof {
        if split_ws(s@).contains(lit@) {
            let j = choose|j: int| 0 <= j < split_ws(s@).len() && split_ws(s@)[j] == lit@;
            assert(false);
        }
    }
    false
}

/// Applies every spanned token of `s` to `f` in order.
fn apply_spans(f: &mut Font, s: &str, spans: &Vec<(usize, usize)>, delimsizing: bool, op_symbol: bool)
    requires
        spans@.map_values(|p: (usize, usize)| span_text(s@, p)) == split_ws(s@),
        forall|k: int| 0 <= k < spans@.len() ==> 0 <= #[trigger] spans@[k].0 <= spans@[k].1
            <= s@.len(),
    ensures
        *final(f) == spec_apply_classes(*old(f), split_ws(s@), delimsizing, op_symbol),
{
    proof {
        assert(split_ws(s@).skip(0) =~= split_ws(s@));
    }
    let mut k: usize = 0;
    while k < spans.len()
        invariant
            k <= spans@.len(),
            spans@.map_values(|p: (usize, usize)| span_text(s@, p)) == split_ws(s@),
            forall|j: int| 0 <= j < spans@.len() ==> 0 <= #[trigger] spans@[j].0 <= spans@[j].1
                <= s@.len(),
            spec_apply_classes(*old(f), split_ws(s@), delimsizing, op_symbol)
                == spec_apply_classes(*f, split_ws(s@).skip(k as int), delimsizing, op_symbol),
        decreases spans@.len() - k,
    {
        let p = spans[k];
        let tok = s.substring_char(p.0, p.1);
        proof {
            assert(split_ws(s@)[k as int] == span_text(s@, spans@[k as int]));
            assert(split_ws(s@).skip(k as int)[0] == split_ws(s@)[k as int]);
            assert(split_ws(s@).skip(k as int).drop_first() =~= split_ws(s@).skip(k as int + 1));
        }
        font_stack_set(f, tok, delimsizing, op_symbol);
        k = k + 1;
    }
    proof {
        assert(split_ws(s@).skip(spans@.len() as int) =~= Seq::empty());
    }
}

/// The derived descriptor of a child span, per `spec_child_font`.
fn child_font(parent: Font, attrs: &Vec<(Vec<u8>, Vec<u8>)>) -> (r: Font)
    ensures
        r == spec_child_font(parent, attrs@),
{
    let bytes = match class_attr(attrs) {
        Some(b) => b,
        None => {
            return parent;
        },
    };
    let s = match utf8_to_string(bytes) {
        Some(s) => s,
        None => {
            return parent;
        },
    };
    let spans = class_token_spans(&s);
    let delimsizing = spans_contain(&s, &spans, "delimsizing");
    let mult = spans_contain(&s, &spans, "mult");
    let op_symbol = spans_contain(&s, &spans, "op-symbol");
    let mut f = parent;
    f.delimsizing_mult = parent.delimsizing_mult || (delimsizing && mult);
    apply_spans(&mut f, &s, &spans, delimsizing, op_symbol);
    f
}

/// Decides `spec_is_root`.
fn is_root_token(t: &MarkupToken) -> (r: bool)
    ensures
        r == spec_is_root(*t),
{
    match t {
        MarkupToken::StartTag { name, attrs } => {
            if !is_span_name(name) {
                return false;
            }
            let bytes = match class_attr(attrs) {
                Some(b) => b,
                None => {
                    return false;
                },
            };
            let s = match utf8_to_string(bytes) {
                Some(s) => s,
                None => {
                    return false;
                },
            };
            let spans = class_token_spans(&s);
            spans_contain(&s, &spans, "katex-html")
        },
        _ => false,
    }
}

/// Walks the subtree that starts after the root marker at `start - 1`.
fn walk_from(tokens: &Vec<MarkupToken>, start: usize) -> (r: UsedFonts)
    requires
        start <= tokens@.len(),
    ensures
        r == walk(tokens@, start as int, seq![default_font()], uf_empty()),
{
    let mut stack: Vec<Font> = Vec::new();
    stack.push(Font::default());
    let mut acc = UsedFonts::default();
    let mut i = start;
    proof {
        assert(stack@ =~= seq![default_font()]);
    }
    while i < tokens.len()
        invariant
            start <= i <= tokens@.len(),
            stack@.len() >= 1,
            walk(tokens@, start as int, seq![default_font()], uf_empty()) == walk(
                tokens@,
                i as int,
                stack@,
                acc,
            ),
        decreases tokens@.len() - i,
    {
        match &tokens[i] {
            MarkupToken::StartTag { name, attrs } => {
                if is_span_name(name) {
                    let top = stack[stack.len() - 1];
                    let child = child_font(top, attrs);
                    proof {
                        assert(stack@.last() == top);
                    }
                    stack.push(child);
                }
            },
            MarkupToken::EndTag { name } => {
                if is_span_name(name) {
                    if stack.len() == 1 {
                        return acc;
                    }
                    stack.pop();
                }
            },
            MarkupToken::Text { text } => {
                if !bytes_all_ws(text) {
                    let top = stack[stack.len() - 1];
                    proof {
                        assert(stack@.last() == top);
                    }
                    font_flag_set(top, &mut acc);
                }
            },
            _ => {},
        }
        i = i + 1;
    }
    acc
}

/// The font variants that the markup's token stream uses, computed from
/// the tokens alone.
pub fn extract_from_tokens(tokens: &Vec<MarkupToken>) -> (r: UsedFonts)
    ensures
        r == extract_spec(tokens@),
{
    let mut i: usize = 0;
    while i < tokens.len()
        invariant
            i <= tokens@.len(),
            find_root(tokens@, 0) == find_root(tokens@, i as int),
        decreases tokens@.len() - i,
    {
        if is_root_token(&tokens[i]) {
            return walk_from(tokens, i + 1);
        }
        i = i + 1;
    }
    UsedFonts::default()
}

/// The font variants that rendered markup uses: the walk of its token
/// stream.
pub fn font_extract(html: &str) -> (r: UsedFonts)
    ensures
        r == extract_spec(tokens_of(html@)),
{
    let tokens = tokenize(html);
    extract_from_tokens(&tokens)
}

/// A token stream without a root marker span uses no font variant.
pub proof fn lemma_no_root_empty(toks: Seq<MarkupToken>)
    requires
        find_root(toks, 0) is None,
    ensures
        extract_spec(toks) == uf_empty(),
{
}

/// A walk over tokens none of which is non-blank text adds nothing.
proof fn lemma_walk_no_text(toks: Seq<MarkupToken>, i: int, stack: Seq<Font>, acc: UsedFonts)
    requires
        forall|j: int| i <= j < toks.len() ==> !is_marking_text(#[trigger] toks[j]),
    ensures
        walk(toks, i, stack, acc) == acc,
    decreases toks.len() - i,
{
    if 0 <= i < toks.len() && stack.len() > 0 {
        match toks[i] {
            MarkupToken::StartTag { name, attrs } => {
                if spec_is_span(name@) {
                    lemma_walk_no_text(
                        toks,
                        i + 1,
                        stack.push(spec_child_font(stack.last(), attrs@)),
                        acc,
                    );
                } else {
                    lemma_walk_no_text(toks, i + 1, stack, acc);
                }
            },
            MarkupToken::EndTag { name } => {
                if spec_is_span(name@) && stack.len() > 1 {
                    lemma_walk_no_text(toks, i + 1, stack.drop_last(), acc);
                } else if !spec_is_span(name@) {
                    lemma_walk_no_text(toks, i + 1, stack, acc);
                }
            },
            MarkupToken::Text { text } => {
                lemma_walk_no_text(toks, i + 1, stack, acc);
            },
            _ => {
                lemma_walk_no_text(toks, i + 1, stack, acc);
            },
        }
    }
}

/// A root span whose subtree holds only blank text nodes uses no font
/// variant: white space marks nothing.
pub proof fn lemma_whitespace_only_empty(toks: Seq<MarkupToken>, k: int)
    requires
        find_root(toks, 0) == Option::Some(k),
        forall|j: int| k < j < toks.len() ==> !is_marking_text(#[trigger] toks[j]),
    ensures
        extract_spec(toks) == uf_empty(),
{
    lemma_walk_no_text(toks, k + 1, seq![default_font()], uf_empty());
}

/// Walking never removes a variant: membership is monotonic during one
/// extraction pass.
pub proof fn lemma_walk_monotonic(
    toks: Seq<MarkupToken>,
    i: int,
    stack: Seq<Font>,
    acc: UsedFonts,
    v: crate::font::FontVariant,
)
    requires
        crate::font::has_variant(acc, v),
    ensures
        crate::font::has_variant(walk(toks, i, stack, acc), v),
    decreases toks.len() - i,
{
    if 0 <= i < toks.len() && stack.len() > 0 {
        match toks[i] {
            MarkupToken::StartTag { name, attrs } => {
                if spec_is_span(name@) {
                    lemma_walk_monotonic(
                        toks,
                        i + 1,
                        stack.push(spec_child_font(stack.last(), attrs@)),
                        acc,
                        v,
                    );
                } else {
                    lemma_walk_monotonic(toks, i + 1, stack, acc, v);
                }
            },
            MarkupToken::EndTag { name } => {
                if spec_is_span(name@) && stack.len() > 1 {
                    lemma_walk_monotonic(toks, i + 1, stack.drop_last(), acc, v);
                } else if !spec_is_span(name@) {
                    lemma_walk_monotonic(toks, i + 1, stack, acc, v);
                }
            },
            MarkupToken::Text { text } => {
                if !all_ws_bytes(text@) {
                    let acc2 = flag_set_spec(stack.last(), acc);
                    assert(crate::font::has_variant(acc2, v)) by {
                        let x = acc.bits;
                        let m = crate::font::font_mask(stack.last());
                        let j = crate::font::variant_index(v);
                        assert(((x >> j) & 1 == 1) ==> (((x | m) >> j) & 1 == 1)) by (bit_vector);
                    }
                    lemma_walk_monotonic(toks, i + 1, stack, acc2, v);
                } else {
                    lemma_walk_monotonic(toks, i + 1, stack, acc, v);
                }
            },
            _ => {
                lemma_walk_monotonic(toks, i + 1, stack, acc, v);
            },
        }
    }
}

} // verus!
