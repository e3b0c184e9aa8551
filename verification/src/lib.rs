//! Rendering of mathematical markup through a persistent, single-owner
//! typesetting engine, together with an analyzer that walks the produced
//! markup and reports which font variants its glyphs actually use.
//!
//! The engine itself runs behind a dedicated worker owned by the embedding
//! program; this crate holds the data model, the decision logic of the
//! worker and of the engine set-up, and the complete font-usage extractor.

pub mod font;
pub mod markup;
pub mod protocol;
pub mod text;
pub mod worker;

pub use font::UsedFonts;
pub use markup::font_extract;
pub use protocol::{Error, KatexOutput, MacroEnv};
