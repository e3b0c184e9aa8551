//! The per-element font descriptor and the accumulated set of used font
//! variants.
//!
//! A `Font` describes how glyphs of one markup element are drawn: a family,
//! a weight flag, a slant flag, and one inherited marker. A `UsedFonts`
//! value is a flag set over the twenty font variants that can actually be
//! produced, kept as a bitset indexed by `FontVariant`; extraction fills
//! it, and callers test, merge or drain it.

use vstd::prelude::*;

use crate::text::str_eq;

verus! {

/// The closed list of font families a descriptor can select.
#[derive(Clone, Copy, Debug, PartialEq, Eq, Structural)]
pub enum FontFamilies {
    AMS,
    Caligraphic,
    Fraktur,
    Main,
    Math,
    SansSerif,
    Script,
    Size1,
    Size2,
    Size3,
    Size4,
    Typewriter,
}

impl Default for FontFamilies {
    fn default() -> (r: Self)
        ensures
            r == FontFamilies::Main,
    {
        FontFamilies::Main
    }
}

/// The font state of one element: family, weight, slant, and whether some
/// strict ancestor carried both the delimiter-sizing and the multiplier
/// marker.
#[derive(Clone, Copy, Debug, PartialEq, Eq, Structural)]
pub struct Font {
    pub family: FontFamilies,
    pub bold: bool,
    pub italic: bool,
    pub delimsizing_mult: bool,
}

/// The descriptor every extraction starts from: upright Main.
pub open spec fn default_font() -> Font {
    Font { family: FontFamilies::Main, bold: false, italic: false, delimsizing_mult: false }
}

impl Default for Font {
    fn default() -> (r: Self)
        ensures
            r == default_font(),
    {
        Font { family: FontFamilies::Main, bold: false, italic: false, delimsizing_mult: false }
    }
}

/// The twenty producible font variants. Draining a `UsedFonts` yields them
/// in the order of this listing.
#[derive(Clone, Copy, Debug, PartialEq, Eq, Structural)]
pub enum FontVariant {
    AmsRegular,
    CaligraphicBold,
    CaligraphicRegular,
    FrakturBold,
    FrakturRegular,
    MainBold,
    MainBoldItalic,
    MainItalic,
    MainRegular,
    MathBoldItalic,
    MathItalic,
    SansSerifBold,
    SansSerifItalic,
    SansSerifRegular,
    ScriptRegular,
    Size1Regular,
    Size2Regular,
    Size3Regular,
    Size4Regular,
    TypewriterRegular,
}

/// The bit position that stands for variant `v` in a `UsedFonts` bitset.
pub open spec fn variant_index(v: FontVariant) -> u32 {
    match v {
        FontVariant::AmsRegular => 0,
        FontVariant::CaligraphicBold => 1,
        FontVariant::CaligraphicRegular => 2,
        FontVariant::FrakturBold => 3,
        FontVariant::FrakturRegular => 4,
        FontVariant::MainBold => 5,
        FontVariant::MainBoldItalic => 6,
        FontVariant::MainItalic => 7,
        FontVariant::MainRegular => 8,
        FontVariant::MathBoldItalic => 9,
        FontVariant::MathItalic => 10,
        FontVariant::SansSerifBold => 11,
        FontVariant::SansSerifItalic => 12,
        FontVariant::SansSerifRegular => 13,
        FontVariant::ScriptRegular => 14,
        FontVariant::Size1Regular => 15,
        FontVariant::Size2Regular => 16,
        FontVariant::Size3Regular => 17,
        FontVariant::Size4Regular => 18,
        FontVariant::TypewriterRegular => 19,
    }
}

/// The variant that bit position `i` stands for.
pub open spec fn variant_at(i: int) -> FontVariant {
    if i == 0 {
        FontVariant::AmsRegular
    } else if i == 1 {
        FontVariant::CaligraphicBold
    } else if i == 2 {
        FontVariant::CaligraphicRegular
    } else if i == 3 {
        FontVariant::FrakturBold
    } else if i == 4 {
        FontVariant::FrakturRegular
    } else if i == 5 {
        FontVariant::MainBold
    } else if i == 6 {
        FontVariant::MainBoldItalic
    } else if i == 7 {
        FontVariant::MainItalic
    } else if i == 8 {
        FontVariant::MainRegular
    } else if i == 9 {
        FontVariant::MathBoldItalic
    } else if i == 10 {
        FontVariant::MathItalic
    } else if i == 11 {
        FontVariant::SansSerifBold
    } else if i == 12 {
        FontVariant::SansSerifItalic
    } else if i == 13 {
        FontVariant::SansSerifRegular
    } else if i == 14 {
        FontVariant::ScriptRegular
    } else if i == 15 {
        FontVariant::Size1Regular
    } else if i == 16 {
        FontVariant::Size2Regular
    } else if i == 17 {
        FontVariant::Size3Regular
    } else if i == 18 {
        FontVariant::Size4Regular
    } else {
        FontVariant::TypewriterRegular
    }
}

/// The canonical face name of variant `v`, the stem of the font files a
/// page must load for it.
pub open spec fn variant_name(v: FontVariant) -> Seq<char> {
    match v {
        FontVariant::AmsRegular => "KaTeX_AMS-Regular"@,
        FontVariant::CaligraphicBold => "KaTeX_Caligraphic-Bold"@,
        FontVariant::CaligraphicRegular => "KaTeX_Caligraphic-Regular"@,
        FontVariant::FrakturBold => "KaTeX_Fraktur-Bold"@,
        FontVariant::FrakturRegular => "KaTeX_Fraktur-Regular"@,
        FontVariant::MainBold => "KaTeX_Main-Bold"@,
        FontVariant::MainBoldItalic => "KaTeX_Main-BoldItalic"@,
        FontVariant::MainItalic => "KaTeX_Main-Italic"@,
        FontVariant::MainRegular => "KaTeX_Main-Regular"@,
        FontVariant::MathBoldItalic => "KaTeX_Math-BoldItalic"@,
        FontVariant::MathItalic => "KaTeX_Math-Italic"@,
        FontVariant::SansSerifBold => "KaTeX_SansSerif-Bold"@,
        FontVariant::SansSerifItalic => "KaTeX_SansSerif-Italic"@,
        FontVariant::SansSerifRegular => "KaTeX_SansSerif-Regular"@,
        FontVariant::ScriptRegular => "KaTeX_Script-Regular"@,
        FontVariant::Size1Regular => "KaTeX_Size1-Regular"@,
        FontVariant::Size2Regular => "KaTeX_Size2-Regular"@,
        FontVariant::Size3Regular => "KaTeX_Size3-Regular"@,
        FontVariant::Size4Regular => "KaTeX_Size4-Regular"@,
        FontVariant::TypewriterRegular => "KaTeX_Typewriter-Regular"@,
    }
}

/// Whether bit `i` of `b` is set.
pub open spec fn spec_bit(b: u32, i: u32) -> bool {
    (b >> i) & 1 == 1
}

/// The flag set of font variants observed so far: one bit per
/// `FontVariant`, at the position `variant_index` gives.
#[derive(Clone, Copy, Debug, PartialEq, Eq, Structural)]
pub struct UsedFonts {
    pub bits: u32,
}

/// The set with no variant present.
pub open spec fn uf_empty() -> UsedFonts {
    UsedFonts { bits: 0 }
}

/// Whether no variant is present.
pub open spec fn uf_is_empty(u: UsedFonts) -> bool {
    u.bits == 0
}

/// A well-formed set uses only the twenty variant bits.
pub open spec fn uf_wf(u: UsedFonts) -> bool {
    u.bits < 0x100000
}

/// Whether variant `v` is present in `u`.
pub open spec fn has_variant(u: UsedFonts, v: FontVariant) -> bool {
    spec_bit(u.bits, variant_index(v))
}

/// The union of two variant sets.
pub open spec fn uf_union(a: UsedFonts, b: UsedFonts) -> UsedFonts {
    UsedFonts { bits: a.bits | b.bits }
}

impl Default for UsedFonts {
    fn default() -> (r: Self)
        ensures
            r == uf_empty(),
    {
        UsedFonts { bits: 0 }
    }
}

impl UsedFonts {
    /// True when no variant has been marked present.
    pub fn is_empty(&self) -> (r: bool)
        ensures
            r == uf_is_empty(*self),
    {
        self.bits == 0
    }

    /// Adds every variant present in `other` to `self`.
    pub fn merge(&mut self, other: UsedFonts)
        ensures
            *final(self) == uf_union(*old(self), other),
    {
        self.bits = self.bits | other.bits;
    }
}

/// The descriptor after applying one class token to `f`. The size rules
/// only fire in their context: `size1`..`size4` on a delimiter-sizing
/// element, `delim-size1`/`delim-size4` under an inherited multiplier
/// marker, and `small-op`/`large-op` on an operator-symbol element. A token
/// outside the table leaves the descriptor unchanged.
pub open spec fn apply_class(f: Font, class: Seq<char>, delimsizing: bool, op_symbol: bool) -> Font {
    if class == "textbf"@ {
        Font { bold: true, ..f }
    } else if class == "textit"@ {
        Font { italic: true, ..f }
    } else if class == "textrm"@ {
        Font { family: FontFamilies::Main, ..f }
    } else if class == "mathsf"@ || class == "textsf"@ {
        Font { family: FontFamilies::SansSerif, ..f }
    } else if class == "texttt"@ {
        Font { family: FontFamilies::Typewriter, ..f }
    } else if class == "mathnormal"@ {
        Font { family: FontFamilies::Math, italic: true, ..f }
    } else if class == "mathit"@ {
        Font { family: FontFamilies::Main, italic: true, ..f }
    } else if class == "mathrm"@ {
        Font { italic: false, ..f }
    } else if class == "mathbf"@ {
        Font { family: FontFamilies::Main, bold: true, ..f }
    } else if class == "boldsymbol"@ {
        Font { family: FontFamilies::Math, bold: true, italic: true, ..f }
    } else if class == "amsrm"@ || class == "mathbb"@ || class == "textbb"@ {
        Font { family: FontFamilies::AMS, ..f }
    } else if class == "mathcal"@ {
        Font { family: FontFamilies::Caligraphic, ..f }
    } else if class == "mathfrak"@ || class == "textfrak"@ {
        Font { family: FontFamilies::Fraktur, ..f }
    } else if class == "mathboldfrak"@ || class == "textboldfrak"@ {
        Font { family: FontFamilies::Fraktur, bold: true, ..f }
    } else if class == "mathtt"@ {
        Font { family: FontFamilies::Typewriter, ..f }
    } else if class == "mathscr"@ {
        Font { family: FontFamilies::Script, ..f }
    } else if class == "mathboldsf"@ || class == "textboldsf"@ {
        Font { family: FontFamilies::SansSerif, bold: true, ..f }
    } else if class == "mathsfit"@ || class == "mathitsf"@ || class == "textitsf"@ {
        Font { family: FontFamilies::SansSerif, italic: true, ..f }
    } else if class == "mainrm"@ {
        Font { family: FontFamilies::Main, italic: false, ..f }
    } else if class == "size1"@ && delimsizing {
        Font { family: FontFamilies::Size1, ..f }
    } else if class == "size2"@ && delimsizing {
        Font { family: FontFamilies::Size2, ..f }
    } else if class == "size3"@ && delimsizing {
        Font { family: FontFamilies::Size3, ..f }
    } else if class == "size4"@ && delimsizing {
        Font { family: FontFamilies::Size4, ..f }
    } else if class == "delim-size1"@ && f.delimsizing_mult {
        Font { family: FontFamilies::Size1, ..f }
    } else if class == "delim-size4"@ && f.delimsizing_mult {
        Font { family: FontFamilies::Size4, ..f }
    } else if class == "small-op"@ && op_symbol {
        Font { family: FontFamilies::Size1, ..f }
    } else if class == "large-op"@ && op_symbol {
        Font { family: FontFamilies::Size2, ..f }
    } else {
        f
    }
}

/// Applies one class token of the rule table to `font`, given whether the
/// element is itself delimiter-sizing and whether it is an operator
/// symbol.
pub fn font_stack_set(font: &mut Font, class: &str, delimsizing: bool, op_symbol: bool)
    ensures
        *final(font) == apply_class(*old(font), class@, delimsizing, op_symbol),
{
    if str_eq(class, "textbf") {
        font.bold = true;
    } else if str_eq(class, "textit") {
        font.italic = true;
    } else if str_eq(class, "textrm") {
        font.family = FontFamilies::Main;
    } else if str_eq(class, "mathsf") || str_eq(class, "textsf") {
        font.family = FontFamilies::SansSerif;
    } else if str_eq(class, "texttt") {
        font.family = FontFamilies::Typewriter;
    } else if str_eq(class, "mathnormal") {
        font.family = FontFamilies::Math;
        font.italic = true;
    } else if str_eq(class, "mathit") {
        font.family = FontFamilies::Main;
        font.italic = true;
    } else if str_eq(class, "mathrm") {
        font.italic = false;
    } else if str_eq(class, "mathbf") {
        font.family = FontFamilies::Main;
        font.bold = true;
    } else if str_eq(class, "boldsymbol") {
        font.family = FontFamilies::Math;
        font.bold = true;
        font.italic = true;
    } else if str_eq(class, "amsrm") || str_eq(class, "mathbb") || str_eq(class, "textbb") {
        font.family = FontFamilies::AMS;
    } else if str_eq(class, "mathcal") {
        font.family = FontFamilies::Caligraphic;
    } else if str_eq(class, "mathfrak") || str_eq(class, "textfrak") {
        font.family = FontFamilies::Fraktur;
    } else if str_eq(class, "mathboldfrak") || str_eq(class, "textboldfrak") {
        font.family = FontFamilies::Fraktur;
        font.bold = true;
    } else if str_eq(class, "mathtt") {
        font.family = FontFamilies::Typewriter;
    } else if str_eq(class, "mathscr") {
        font.family = FontFamilies::Script;
    } else if str_eq(class, "mathboldsf") || str_eq(class, "textboldsf") {
        font.family = FontFamilies::SansSerif;
        font.bold = true;
    } else if str_eq(class, "mathsfit") || str_eq(class, "mathitsf") || str_eq(class, "textitsf") {
        font.family = FontFamilies::SansSerif;
        font.italic = true;
    } else if str_eq(class, "mainrm") {
        font.family = FontFamilies::Main;
        font.italic = false;
    } else if str_eq(class, "size1") && delimsizing {
        font.family = FontFamilies::Size1;
    } else if str_eq(class, "size2") && delimsizing {
        font.family = FontFamilies::Size2;
    } else if str_eq(class, "size3") && delimsizing {
        font.family = FontFamilies::Size3;
    } else if str_eq(class, "size4") && delimsizing {
        font.family = FontFamilies::Size4;
    } else if str_eq(class, "delim-size1") && font.delimsizing_mult {
        font.family = FontFamilies::Size1;
    } else if str_eq(class, "delim-size4") && font.delimsizing_mult {
        font.family = FontFamilies::Size4;
    } else if str_eq(class, "small-op") && op_symbol {
        font.family = FontFamilies::Size1;
    } else if str_eq(class, "large-op") && op_symbol {
        font.family = FontFamilies::Size2;
    }
}

/// The variant bits that classifying descriptor `f` marks present: exactly
/// one variant for every family, except that a bold italic SansSerif
/// descriptor marks both the Bold and the Italic variant, since no combined
/// face exists for that family.
pub open spec fn font_mask(f: Font) -> u32 {
    match f.family {
        FontFamilies::AMS => 1u32 << 0,
        FontFamilies::Caligraphic => if f.bold {
            1u32 << 1
        } else {
            1u32 << 2
        },
        FontFamilies::Fraktur => if f.bold {
            1u32 << 3
        } else {
            1u32 << 4
        },
        FontFamilies::Main => if f.bold && f.italic {
            1u32 << 6
        } else if f.bold {
            1u32 << 5
        } else if f.italic {
            1u32 << 7
        } else {
            1u32 << 8
        },
        FontFamilies::Math => if f.bold {
            1u32 << 9
        } else {
            1u32 << 10
        },
        FontFamilies::SansSerif => if f.bold && f.italic {
            (1u32 << 11) | (1u32 << 12)
        } else if f.bold {
            1u32 << 11
        } else if f.italic {
            1u32 << 12
        } else {
            1u32 << 13
        },
        FontFamilies::Script => 1u32 << 14,
        FontFamilies::Size1 => 1u32 << 15,
        FontFamilies::Size2 => 1u32 << 16,
        FontFamilies::Size3 => 1u32 << 17,
        FontFamilies::Size4 => 1u32 << 18,
        FontFamilies::Typewriter => 1u32 << 19,
    }
}

/// The set after classifying one glyph drawn with descriptor `f`.
pub open spec fn flag_set_spec(f: Font, u: UsedFonts) -> UsedFonts {
    UsedFonts { bits: u.bits | font_mask(f) }
}

/// Classifies descriptor `font` into its font variant and marks it present
/// in `flags`.
pub fn font_flag_set(font: Font, flags: &mut UsedFonts)
    ensures
        *final(flags) == flag_set_spec(font, *old(flags)),
{
    let mask: u32 = match font.family {
        FontFamilies::AMS => 1u32 << 0,
        FontFamilies::Caligraphic => if font.bold {
            1u32 << 1
        } else {
            1u32 << 2
        },
        FontFamilies::Fraktur => if font.bold {
            1u32 << 3
        } else {
            1u32 << 4
        },
        FontFamilies::Main => if font.bold && font.italic {
            1u32 << 6
        } else if font.bold {
            1u32 << 5
        } else if font.italic {
            1u32 << 7
        } else {
            1u32 << 8
        },
        FontFamilies::Math => if font.bold {
            1u32 << 9
        } else {
            1u32 << 10
        },
        FontFamilies::SansSerif => if font.bold && font.italic {
            (1u32 << 11) | (1u32 << 12)
        } else if font.bold {
            1u32 << 11
        } else if font.italic {
            1u32 << 12
        } else {
            1u32 << 13
        },
        FontFamilies::Script => 1u32 << 14,
        FontFamilies::Size1 => 1u32 << 15,
        FontFamilies::Size2 => 1u32 << 16,
        FontFamilies::Size3 => 1u32 << 17,
        FontFamilies::Size4 => 1u32 << 18,
        FontFamilies::Typewriter => 1u32 << 19,
    };
    flags.bits = flags.bits | mask;
}

/// Merging is commutative.
pub proof fn lemma_merge_commutative(a: UsedFonts, b: UsedFonts)
    ensures
        uf_union(a, b) == uf_union(b, a),
{
    let x = a.bits;
    let y = b.bits;
    assert(x | y == y | x) by (bit_vector);
}

/// Merging is associative.
pub proof fn lemma_merge_associative(a: UsedFonts, b: UsedFonts, c: UsedFonts)
    ensures
        uf_union(uf_union(a, b), c) == uf_union(a, uf_union(b, c)),
{
    let x = a.bits;
    let y = b.bits;
    let z = c.bits;
    assert((x | y) | z == x | (y | z)) by (bit_vector);
}

/// The empty set is the identity of merging, on either side.
pub proof fn lemma_merge_identity(a: UsedFonts)
    ensures
        uf_union(a, uf_empty()) == a,
        uf_union(uf_empty(), a) == a,
{
    let x = a.bits;
    assert(x | 0 == x) by (bit_vector);
    assert(0 | x == x) by (bit_vector);
}

/// Merging is idempotent.
pub proof fn lemma_merge_idempotent(a: UsedFonts)
    ensures
        uf_union(a, a) == a,
{
    let x = a.bits;
    assert(x | x == x) by (bit_vector);
}

/// A merged set holds exactly the variants of the two sides.
pub proof fn lemma_union_has(a: UsedFonts, b: UsedFonts, v: FontVariant)
    ensures
        has_variant(uf_union(a, b), v) == (has_variant(a, v) || has_variant(b, v)),
{
    let i = variant_index(v);
    assert(i < 20);
    assert(forall|x: u32, y: u32, j: u32|
        j < 20 ==> ((((x | y) >> j) & 1 == 1) == (((x >> j) & 1 == 1) || ((y >> j) & 1 == 1))))
        by (bit_vector);
}

/// An empty set holds no variant, and a well-formed set holding no variant
/// is empty.
pub proof fn lemma_empty_no_variant(u: UsedFonts)
    requires
        uf_wf(u),
    ensures
        uf_is_empty(u) <==> (forall|v: FontVariant| !has_variant(u, v)),
{
    if uf_is_empty(u) {
        assert forall|v: FontVariant| !has_variant(u, v) by {
            let i = variant_index(v);
            assert(forall|j: u32| (0u32 >> j) & 1 != 1) by (bit_vector);
        }
    } else {
        if forall|v: FontVariant| !has_variant(u, v) {
            assert(!has_variant(u, FontVariant::AmsRegular));
            assert(!has_variant(u, FontVariant::CaligraphicBold));
            assert(!has_variant(u, FontVariant::CaligraphicRegular));
            assert(!has_variant(u, FontVariant::FrakturBold));
            assert(!has_variant(u, FontVariant::FrakturRegular));
            assert(!has_variant(u, FontVariant::MainBold));
            assert(!has_variant(u, FontVariant::MainBoldItalic));
            assert(!has_variant(u, FontVariant::MainItalic));
            assert(!has_variant(u, FontVariant::MainRegular));
            assert(!has_variant(u, FontVariant::MathBoldItalic));
            assert(!has_variant(u, FontVariant::MathItalic));
            assert(!has_variant(u, FontVariant::SansSerifBold));
            assert(!has_variant(u, FontVariant::SansSerifItalic));
            assert(!has_variant(u, FontVariant::SansSerifRegular));
            assert(!has_variant(u, FontVariant::ScriptRegular));
            assert(!has_variant(u, FontVariant::Size1Regular));
            assert(!has_variant(u, FontVariant::Size2Regular));
            assert(!has_variant(u, FontVariant::Size3Regular));
            assert(!has_variant(u, FontVariant::Size4Regular));
            assert(!has_variant(u, FontVariant::TypewriterRegular));
            let b = u.bits;
            assert(b == 0) by (bit_vector)
                requires
                    b < 0x100000,
                    (b >> 0u32) & 1 != 1,
                    (b >> 1u32) & 1 != 1,
                    (b >> 2u32) & 1 != 1,
                    (b >> 3u32) & 1 != 1,
                    (b >> 4u32) & 1 != 1,
                    (b >> 5u32) & 1 != 1,
                    (b >> 6u32) & 1 != 1,
                    (b >> 7u32) & 1 != 1,
                    (b >> 8u32) & 1 != 1,
                    (b >> 9u32) & 1 != 1,
                    (b >> 10u32) & 1 != 1,
                    (b >> 11u32) & 1 != 1,
                    (b >> 12u32) & 1 != 1,
                    (b >> 13u32) & 1 != 1,
                    (b >> 14u32) & 1 != 1,
                    (b >> 15u32) & 1 != 1,
                    (b >> 16u32) & 1 != 1,
                    (b >> 17u32) & 1 != 1,
                    (b >> 18u32) & 1 != 1,
                    (b >> 19u32) & 1 != 1,
            ;
        }
    }
}

/// The lowest position at or above `i` of a set bit among the twenty
/// variant bits of `b`, or 20 when none is set.
pub open spec fn lowest(b: u32, i: int) -> int
    decreases 20 - i,
{
    if i < 0 || i >= 20 {
        20
    } else if spec_bit(b, i as u32) {
        i
    } else {
        lowest(b, i + 1)
    }
}

/// The names of the variants of `b` at positions at or above `i`, in
/// enumeration order.
pub open spec fn drain_names_from(b: u32, i: int) -> Seq<Seq<char>>
    decreases 20 - i,
{
    if i < 0 || i >= 20 {
        Seq::empty()
    } else if spec_bit(b, i as u32) {
        seq![variant_name(variant_at(i))] + drain_names_from(b, i + 1)
    } else {
        drain_names_from(b, i + 1)
    }
}

/// The names of all variants present in `u`, in enumeration order.
pub open spec fn drain_names(u: UsedFonts) -> Seq<Seq<char>> {
    drain_names_from(u.bits, 0)
}

/// The canonical name of the variant at position `i`.
fn variant_name_at(i: u32) -> (r: &'static str)
    requires
        i < 20,
    ensures
        r@ == variant_name(variant_at(i as int)),
{
    if i == 0 {
        "KaTeX_AMS-Regular"
    } else if i == 1 {
        "KaTeX_Caligraphic-Bold"
    } else if i == 2 {
        "KaTeX_Caligraphic-Regular"
    } else if i == 3 {
        "KaTeX_Fraktur-Bold"
    } else if i == 4 {
        "KaTeX_Fraktur-Regular"
    } else if i == 5 {
        "KaTeX_Main-Bold"
    } else if i == 6 {
        "KaTeX_Main-BoldItalic"
    } else if i == 7 {
        "KaTeX_Main-Italic"
    } else if i == 8 {
        "KaTeX_Main-Regular"
    } else if i == 9 {
        "KaTeX_Math-BoldItalic"
    } else if i == 10 {
        "KaTeX_Math-Italic"
    } else if i == 11 {
        "KaTeX_SansSerif-Bold"
    } else if i == 12 {
        "KaTeX_SansSerif-Italic"
    } else if i == 13 {
        "KaTeX_SansSerif-Regular"
    } else if i == 14 {
        "KaTeX_Script-Regular"
    } else if i == 15 {
        "KaTeX_Size1-Regular"
    } else if i == 16 {
        "KaTeX_Size2-Regular"
    } else if i == 17 {
        "KaTeX_Size3-Regular"
    } else if i == 18 {
        "KaTeX_Size4-Regular"
    } else {
        "KaTeX_Typewriter-Regular"
    }
}

impl UsedFonts {
    /// Removes the first present variant in enumeration order and yields
    /// its canonical name, or yields nothing when the set is empty of
    /// variant bits.
    pub fn next(&mut self) -> (r: Option<&'static str>)
        ensures
            ({
                let k = lowest(old(self).bits, 0);
                if k == 20 {
                    r is None && *final(self) == *old(self)
                } else {
                    (r matches Some(s) && s@ == variant_name(variant_at(k)))
                        && final(self).bits == (old(self).bits & !(1u32 << (k as u32)))
                }
            }),
    {
        proof {
            reveal_with_fuel(lowest, 21);
        }
        let mut i: u32 = 0;
        while i < 20
            invariant
                i <= 20,
                *self == *old(self),
                lowest(self.bits, 0) == lowest(self.bits, i as int),
            decreases 20 - i,
        {
            if (self.bits >> i) & 1 == 1 {
                let name = variant_name_at(i);
                self.bits = self.bits & !(1u32 << i);
                return Some(name);
            }
            i = i + 1;
        }
        None
    }

    /// Empties the set, yielding the canonical name of each present
    /// variant exactly once, in enumeration order.
    pub fn drain(&mut self) -> (r: Vec<&'static str>)
        ensures
            r@.map_values(|s: &'static str| s@) == drain_names(*old(self)),
            *final(self) == uf_empty(),
    {
        let mut out: Vec<&'static str> = Vec::new();
        let mut i: u32 = 0;
        while i < 20
            invariant
                i <= 20,
                *self == *old(self),
                out@.map_values(|s: &'static str| s@) + drain_names_from(self.bits, i as int)
                    == drain_names(*old(self)),
            decreases 20 - i,
        {
            if (self.bits >> i) & 1 == 1 {
                let name = variant_name_at(i);
                let ghost prev = out@;
                out.push(name);
                proof {
                    assert(out@.map_values(|s: &'static str| s@) =~= prev.map_values(
                        |s: &'static str| s@,
                    ) + seq![name@]);
                    assert(prev.map_values(|s: &'static str| s@) + drain_names_from(
                        self.bits,
                        i as int,
                    ) =~= out@.map_values(|s: &'static str| s@) + drain_names_from(
                        self.bits,
                        i as int + 1,
                    ));
                }
            }
            i = i + 1;
        }
        self.bits = 0;
        out
    }
}

/// Distinct variants carry distinct canonical names.
proof fn lemma_names_distinct(v1: FontVariant, v2: FontVariant)
    requires
        v1 != v2,
    ensures
        variant_name(v1) != variant_name(v2),
{
    reveal_strlit("KaTeX_AMS-Regular");
    reveal_strlit("KaTeX_Caligraphic-Bold");
    reveal_strlit("KaTeX_Caligraphic-Regular");
    reveal_strlit("KaTeX_Fraktur-Bold");
    reveal_strlit("KaTeX_Fraktur-Regular");
    reveal_strlit("KaTeX_Main-Bold");
    reveal_strlit("KaTeX_Main-BoldItalic");
    reveal_strlit("KaTeX_Main-Italic");
    reveal_strlit("KaTeX_Main-Regular");
    reveal_strlit("KaTeX_Math-BoldItalic");
    reveal_strlit("KaTeX_Math-Italic");
    reveal_strlit("KaTeX_SansSerif-Bold");
    reveal_strlit("KaTeX_SansSerif-Italic");
    reveal_strlit("KaTeX_SansSerif-Regular");
    reveal_strlit("KaTeX_Script-Regular");
    reveal_strlit("KaTeX_Size1-Regular");
    reveal_strlit("KaTeX_Size2-Regular");
    reveal_strlit("KaTeX_Size3-Regular");
    reveal_strlit("KaTeX_Size4-Regular");
    reveal_strlit("KaTeX_Typewriter-Regular");
    assert("KaTeX_AMS-Regular"@.len() == 17);
    assert("KaTeX_Caligraphic-Bold"@.len() == 22);
    assert("KaTeX_Caligraphic-Regular"@.len() == 25);
    assert("KaTeX_Fraktur-Bold"@.len() == 18);
    assert("KaTeX_Fraktur-Regular"@.len() == 21);
    assert("KaTeX_Main-Bold"@.len() == 15);
    assert("KaTeX_Main-BoldItalic"@.len() == 21);
    assert("KaTeX_Main-Italic"@.len() == 17);
    assert("KaTeX_Main-Regular"@.len() == 18);
    assert("KaTeX_Math-BoldItalic"@.len() == 21);
    assert("KaTeX_Math-Italic"@.len() == 17);
    assert("KaTeX_SansSerif-Bold"@.len() == 20);
    assert("KaTeX_SansSerif-Italic"@.len() == 22);
    assert("KaTeX_SansSerif-Regular"@.len() == 23);
    assert("KaTeX_Script-Regular"@.len() == 20);
    assert("KaTeX_Size1-Regular"@.len() == 19);
    assert("KaTeX_Size2-Regular"@.len() == 19);
    assert("KaTeX_Size3-Regular"@.len() == 19);
    assert("KaTeX_Size4-Regular"@.len() == 19);
    assert("KaTeX_Typewriter-Regular"@.len() == 24);
    assert("KaTeX_AMS-Regular"@[6] != "KaTeX_Main-Italic"@[6]);
    assert("KaTeX_AMS-Regular"@[6] != "KaTeX_Math-Italic"@[6]);
    assert("KaTeX_Main-Italic"@[8] != "KaTeX_Math-Italic"@[8]);
    assert("KaTeX_Fraktur-Bold"@[6] != "KaTeX_Main-Regular"@[6]);
    assert("KaTeX_Fraktur-Regular"@[6] != "KaTeX_Main-BoldItalic"@[6]);
    assert("KaTeX_Fraktur-Regular"@[6] != "KaTeX_Math-BoldItalic"@[6]);
    assert("KaTeX_Main-BoldItalic"@[8] != "KaTeX_Math-BoldItalic"@[8]);
    assert("KaTeX_Caligraphic-Bold"@[6] != "KaTeX_SansSerif-Italic"@[6]);
    assert("KaTeX_SansSerif-Bold"@[7] != "KaTeX_Script-Regular"@[7]);
    assert("KaTeX_Size1-Regular"@[10] != "KaTeX_Size2-Regular"@[10]);
    assert("KaTeX_Size1-Regular"@[10] != "KaTeX_Size3-Regular"@[10]);
    assert("KaTeX_Size1-Regular"@[10] != "KaTeX_Size4-Regular"@[10]);
    assert("KaTeX_Size2-Regular"@[10] != "KaTeX_Size3-Regular"@[10]);
    assert("KaTeX_Size2-Regular"@[10] != "KaTeX_Size4-Regular"@[10]);
    assert("KaTeX_Size3-Regular"@[10] != "KaTeX_Size4-Regular"@[10]);
}

/// `variant_at` inverts `variant_index`, and the other way round on the
/// twenty bit positions.
proof fn lemma_variant_roundtrip()
    ensures
        forall|v: FontVariant| #![auto] variant_at(variant_index(v) as int) == v,
        forall|j: int| 0 <= j < 20 ==> #[trigger] variant_index(variant_at(j)) == j,
{
}

/// A name is drained from position `i` on exactly when some set bit at or
/// above `i` carries it.
proof fn lemma_drain_members(b: u32, i: int, s: Seq<char>)
    requires
        0 <= i <= 20,
    ensures
        drain_names_from(b, i).contains(s) <==> exists|j: int|
            i <= j < 20 && spec_bit(b, j as u32) && s == variant_name(variant_at(j)),
    decreases 20 - i,
{
    if i == 20 {
    } else {
        lemma_drain_members(b, i + 1, s);
        let rest = drain_names_from(b, i + 1);
        if spec_bit(b, i as u32) {
            let whole = seq![variant_name(variant_at(i))] + rest;
            assert(drain_names_from(b, i) == whole);
            if s == variant_name(variant_at(i)) {
                assert(whole[0] == s);
                assert(whole.contains(s));
            }
            if rest.contains(s) {
                let k = choose|k: int| 0 <= k < rest.len() && rest[k] == s;
                assert(whole[k + 1] == s);
                assert(whole.contains(s));
            }
            if whole.contains(s) {
                let k = choose|k: int| 0 <= k < whole.len() && whole[k] == s;
                if k == 0 {
                    assert(s == variant_name(variant_at(i)));
                } else {
                    assert(rest[k - 1] == s);
                    assert(rest.contains(s));
                }
            }
        }
    }
}

/// The names drained from position `i` on hold no repetition.
proof fn lemma_drain_no_duplicates(b: u32, i: int)
    requires
        0 <= i <= 20,
    ensures
        drain_names_from(b, i).no_duplicates(),
    decreases 20 - i,
{
    if i < 20 {
        lemma_drain_no_duplicates(b, i + 1);
        let rest = drain_names_from(b, i + 1);
        if spec_bit(b, i as u32) {
            let head = variant_name(variant_at(i));
            let whole = seq![head] + rest;
            assert(!rest.contains(head)) by {
                lemma_drain_members(b, i + 1, head);
                if exists|j: int|
                    i + 1 <= j < 20 && spec_bit(b, j as u32) && head == variant_name(
                        variant_at(j),
                    ) {
                    let j = choose|j: int|
                        i + 1 <= j < 20 && spec_bit(b, j as u32) && head == variant_name(
                            variant_at(j),
                        );
                    lemma_variant_roundtrip();
                    assert(variant_at(i) != variant_at(j));
                    lemma_names_distinct(variant_at(i), variant_at(j));
                }
            }
            assert forall|p: int, q: int| 0 <= p < q < whole.len() implies whole[p]
                != whole[q] by {
                if p == 0 {
                    assert(rest[q - 1] == whole[q]);
                    assert(rest.contains(whole[q]));
                }
            }
        }
    }
}

/// Draining yields the canonical name of each present variant exactly
/// once, in the fixed enumeration order; a set with no variant yields
/// nothing.
pub proof fn lemma_drain_exactly_once(u: UsedFonts)
    ensures
        drain_names(u).no_duplicates(),
        forall|v: FontVariant| #[trigger]
            drain_names(u).contains(variant_name(v)) <==> has_variant(u, v),
        uf_is_empty(u) ==> drain_names(u) == Seq::<Seq<char>>::empty(),
{
    lemma_drain_no_duplicates(u.bits, 0);
    assert forall|v: FontVariant| #[trigger]
        drain_names(u).contains(variant_name(v)) <==> has_variant(u, v) by {
        lemma_drain_members(u.bits, 0, variant_name(v));
        lemma_variant_roundtrip();
        if has_variant(u, v) {
            let j = variant_index(v) as int;
            assert(0 <= j < 20 && spec_bit(u.bits, j as u32) && variant_name(v) == variant_name(
                variant_at(j),
            ));
        }
        if drain_names(u).contains(variant_name(v)) {
            let j = choose|j: int|
                0 <= j < 20 && spec_bit(u.bits, j as u32) && variant_name(v) == variant_name(
                    variant_at(j),
                );
            if variant_at(j) != v {
                lemma_names_distinct(variant_at(j), v);
            }
            assert(j == variant_index(v) as int);
        }
    }
    if uf_is_empty(u) {
        assert(forall|j: u32| (0u32 >> j) & 1 != 1) by (bit_vector);
        lemma_drain_all_clear(u.bits, 0);
    }
}

/// Nothing is drained from a value whose variant bits are all clear.
proof fn lemma_drain_all_clear(b: u32, i: int)
    requires
        0 <= i <= 20,
        forall|j: u32| !spec_bit(b, j),
    ensures
        drain_names_from(b, i) == Seq::<Seq<char>>::empty(),
    decreases 20 - i,
{
    if i < 20 {
        assert(!spec_bit(b, i as u32));
        lemma_drain_all_clear(b, i + 1);
    }
}

} // verus!
