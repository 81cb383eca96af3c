//! Displayed column width of Unicode text, in the cells of a terminal.
//!
//! The width of a text is found by one pass from its last codepoint to its first. Each
//! codepoint adds a signed number of cells that depends on the codepoints to its right, of
//! which a sixteen bit register keeps what matters, so that a sequence drawn as one glyph
//! counts as one glyph. Both the narrow and the wide reading of the codepoints of ambiguous
//! width are offered.
//!
//! - [`lookup`] holds the codepoint classifier, the widths of single codepoints, the step of
//!   the scan and the scans of whole texts.
//! - [`rules`] states what a step and a scan give, rule by rule.
//! - [`width_info`] is the register.
//! - [`props`] and [`tables`] are the sets of codepoints that the rules ask about.
//! - [`soundness`], [`agreement`] and [`laws`] prove what holds of every text.
pub mod agreement;
pub mod laws;
pub mod lookup;
pub mod props;
pub mod rules;
pub mod soundness;
pub mod tables;
pub mod width_info;
