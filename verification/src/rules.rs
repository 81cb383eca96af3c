//! The transition rules: what a codepoint adds to the width of a text, given the context
//! that the codepoints to its right have left, and the context that it leaves in turn.
//!
//! The rules are tried in a fixed order, and the first that applies decides. Their order is
//! that of the functions [`spec_width_in`], [`spec_width_in_context`] and
//! [`spec_width_in_sequence`]. A pending emoji presentation selector is looked at first, since
//! the bases that take it include the digits, `#` and `*`.
use crate::lookup::spec_lookup_width;
use crate::props::{
    is_curly_quotation_mark, is_regional_indicator, is_skin_tone_modifier, is_tag_digit,
    is_tag_letter, is_tifinagh_consonant, spec_is_emoji_modifier_base,
    spec_is_joining_group_lam, spec_is_ligature_transparent, spec_is_solidus_transparent,
    spec_is_transparent_zero_width, spec_starts_emoji_presentation_seq,
    spec_starts_non_ideographic_text_presentation_seq,
};
use crate::width_info::{
    emoji_pending, ligature_transparent, text_pending, vs1_2_3_pending, with_emoji, with_text,
    with_vs1_2_3, with_zwj, without_emoji, without_text, without_vs1_2_3, zwj_emoji_pending,
    BUGINESE_VOWEL_SIGN_I_ZWJ_LETTER_YA, COMBINING_LONG_SOLIDUS_OVERLAY, DEFAULT,
    EMOJI_MODIFIER, EMOJI_PRESENTATION, EVEN_REGIONAL_INDICATOR_ZWJ_PRESENTATION,
    JOINING_GROUP_ALEF, KEYCAP_ZWJ_EMOJI_PRESENTATION, KHMER_COENG_ELIGIBLE_LETTER,
    KIRAT_RAI_VOWEL_SIGN_AI, KIRAT_RAI_VOWEL_SIGN_E, LINE_FEED, LISU_TONE_LETTER_MYA_NA_JEU,
    ODD_REGIONAL_INDICATOR_ZWJ_PRESENTATION, REGIONAL_INDICATOR,
    REGIONAL_INDICATOR_ZWJ_PRESENTATION, SEVERAL_REGIONAL_INDICATOR, SOLIDUS_OVERLAY_ALEF,
    TAG_A1_END_ZWJ_EMOJI_PRESENTATION, TAG_A2_END_ZWJ_EMOJI_PRESENTATION,
    TAG_A3_END_ZWJ_EMOJI_PRESENTATION, TAG_A4_END_ZWJ_EMOJI_PRESENTATION,
    TAG_A5_END_ZWJ_EMOJI_PRESENTATION, TAG_A6_END_ZWJ_EMOJI_PRESENTATION,
    TAG_D1_END_ZWJ_EMOJI_PRESENTATION, TAG_D2_END_ZWJ_EMOJI_PRESENTATION,
    TAG_D3_END_ZWJ_EMOJI_PRESENTATION, TAG_END_ZWJ_EMOJI_PRESENTATION, TIFINAGH_CONSONANT,
    TIFINAGH_JOINER_CONSONANT, ZWJ_BUGINESE_LETTER_YA, ZWJ_EMOJI_PRESENTATION,
    ZWJ_HEBREW_LETTER_LAMED, ZWJ_OLD_TURKIC_LETTER_ORKHON_I, ZWJ_TIFINAGH_CONSONANT,
};
use vstd::prelude::*;

verus! {

/// A pending emoji presentation selector meets a base that takes it: the pair is two cells
/// wide, or adds nothing where the base stands in a joined emoji that was counted already.
pub open spec fn rule_emoji_presentation(c: char, ctx: u16) -> Option<(int, u16)> {
    if emoji_pending(ctx) && spec_starts_emoji_presentation_seq(c) {
        Some(
            (
                if zwj_emoji_pending(ctx) {
                    0int
                } else {
                    2int
                },
                EMOJI_PRESENTATION,
            ),
        )
    } else {
        None
    }
}

/// The context once a pending emoji presentation selector has met no base.
pub open spec fn settle_emoji(ctx: u16) -> u16 {
    if emoji_pending(ctx) {
        without_emoji(ctx)
    } else {
        ctx
    }
}

/// In wide-ambiguous mode a relation sign struck through by U+0338 is two cells wide.
pub open spec fn rule_struck_relation(cjk: bool, c: char, ctx: u16) -> Option<(int, u16)> {
    if cjk && (ctx == COMBINING_LONG_SOLIDUS_OVERLAY || ctx == SOLIDUS_OVERLAY_ALEF) && (c == '<'
        || c == '=' || c == '>') {
        Some((2int, DEFAULT))
    } else {
        None
    }
}

/// Up to U+00A0: a line feed is one cell and is remembered, a carriage return in front of a
/// line feed adds nothing, and every other codepoint is one cell.
pub open spec fn rule_control(c: char, ctx: u16) -> (int, u16) {
    if c == '\n' {
        (1, LINE_FEED)
    } else if c == '\r' && ctx == LINE_FEED {
        (0, DEFAULT)
    } else {
        (1, DEFAULT)
    }
}

/// A variation selector in front of a pending context adds nothing and sets its flag.
pub open spec fn rule_variation_selector(cjk: bool, c: char, ctx: u16) -> Option<(int, u16)> {
    if c == '\u{FE0F}' {
        Some((0int, with_emoji(ctx)))
    } else if cjk && (c == '\u{FE00}' || c == '\u{FE02}') {
        Some((0int, with_vs1_2_3(ctx)))
    } else if !cjk && c == '\u{FE01}' {
        Some((0int, with_vs1_2_3(ctx)))
    } else if !cjk && c == '\u{FE0E}' {
        Some((0int, with_text(ctx)))
    } else {
        None
    }
}

/// In narrow-ambiguous mode a pending text presentation selector makes its base one cell wide.
pub open spec fn rule_text_presentation(cjk: bool, c: char, ctx: u16) -> Option<(int, u16)> {
    if !cjk && text_pending(ctx) && spec_starts_non_ideographic_text_presentation_seq(c) {
        Some((1int, DEFAULT))
    } else {
        None
    }
}

/// The context once a pending text presentation selector has met no base.
pub open spec fn settle_text(cjk: bool, ctx: u16) -> u16 {
    if !cjk && text_pending(ctx) {
        without_text(ctx)
    } else {
        ctx
    }
}

/// A curly quotation mark with a variation selector 1 to 3 takes the width that the other
/// mode gives it.
pub open spec fn rule_quotation_mark(cjk: bool, c: char, ctx: u16) -> Option<(int, u16)> {
    if vs1_2_3_pending(ctx) && is_curly_quotation_mark(c) {
        Some(
            (
                if cjk {
                    1int
                } else {
                    2int
                },
                DEFAULT,
            ),
        )
    } else {
        None
    }
}

/// The context once a pending variation selector 1 to 3 has met no quotation mark.
pub open spec fn settle_vs1_2_3(ctx: u16) -> u16 {
    if vs1_2_3_pending(ctx) {
        without_vs1_2_3(ctx)
    } else {
        ctx
    }
}

/// In front of a ligature state a zero width joiner is recorded, and any other
/// ligature-transparent codepoint passes without a trace.
pub open spec fn rule_ligature_transparent(c: char, ctx: u16) -> Option<(int, u16)> {
    if ligature_transparent(ctx) && c == '\u{200D}' {
        Some((0int, with_zwj(ctx)))
    } else if ligature_transparent(ctx) && spec_is_ligature_transparent(c) {
        Some((0int, ctx))
    } else {
        None
    }
}

/// Arabic: a lam in front of an alef adds nothing, and marks between them do not part them.
/// In wide-ambiguous mode U+0338 is followed through the marks that may stand after it.
pub open spec fn rule_arabic(cjk: bool, c: char, ctx: u16) -> Option<(int, u16)> {
    if cjk && ctx == COMBINING_LONG_SOLIDUS_OVERLAY && spec_is_solidus_transparent(c) {
        Some((spec_lookup_width(c, cjk).0 as int, COMBINING_LONG_SOLIDUS_OVERLAY))
    } else if cjk && ctx == JOINING_GROUP_ALEF && c == '\u{0338}' {
        Some((0int, SOLIDUS_OVERLAY_ALEF))
    } else if ctx == JOINING_GROUP_ALEF && spec_is_joining_group_lam(c) {
        Some((0int, DEFAULT))
    } else if cjk && ctx == SOLIDUS_OVERLAY_ALEF && spec_is_joining_group_lam(c) {
        Some((0int, DEFAULT))
    } else if ctx == JOINING_GROUP_ALEF && spec_is_transparent_zero_width(c) {
        Some((0int, JOINING_GROUP_ALEF))
    } else {
        None
    }
}

/// The ligatures of Hebrew, Khmer, Buginese, Tifinagh, Lisu, Old Turkic and Kirat Rai.
pub open spec fn rule_script_ligature(c: char, ctx: u16) -> Option<(int, u16)> {
    if ctx == ZWJ_HEBREW_LETTER_LAMED && c == '\u{05D0}' {
        Some((0int, DEFAULT))
    } else if ctx == KHMER_COENG_ELIGIBLE_LETTER && c == '\u{17D2}' {
        Some((-1int, DEFAULT))
    } else if ctx == ZWJ_BUGINESE_LETTER_YA && c == '\u{1A17}' {
        Some((0int, BUGINESE_VOWEL_SIGN_I_ZWJ_LETTER_YA))
    } else if ctx == BUGINESE_VOWEL_SIGN_I_ZWJ_LETTER_YA && c == '\u{1A15}' {
        Some((0int, DEFAULT))
    } else if (ctx == TIFINAGH_CONSONANT || ctx == ZWJ_TIFINAGH_CONSONANT) && c == '\u{2D7F}' {
        Some((1int, TIFINAGH_JOINER_CONSONANT))
    } else if ctx == ZWJ_TIFINAGH_CONSONANT && is_tifinagh_consonant(c) {
        Some((0int, DEFAULT))
    } else if ctx == TIFINAGH_JOINER_CONSONANT && is_tifinagh_consonant(c) {
        Some((-1int, DEFAULT))
    } else if ctx == LISU_TONE_LETTER_MYA_NA_JEU && '\u{A4F8}' <= c <= '\u{A4FB}' {
        Some((0int, DEFAULT))
    } else if ctx == ZWJ_OLD_TURKIC_LETTER_ORKHON_I && c == '\u{10C32}' {
        Some((0int, DEFAULT))
    } else if ctx == KIRAT_RAI_VOWEL_SIGN_E && (c == '\u{16D63}' || c == '\u{16D69}') {
        Some((0int, DEFAULT))
    } else if ctx == KIRAT_RAI_VOWEL_SIGN_E && c == '\u{16D67}' {
        Some((0int, KIRAT_RAI_VOWEL_SIGN_AI))
    } else if ctx == KIRAT_RAI_VOWEL_SIGN_E && c == '\u{16D68}' {
        Some((1int, KIRAT_RAI_VOWEL_SIGN_E))
    } else if ctx == KIRAT_RAI_VOWEL_SIGN_AI && c == '\u{16D63}' {
        Some((0int, DEFAULT))
    } else {
        None
    }
}

/// A base in front of a skin tone modifier adds nothing: the modifier was counted.
pub open spec fn rule_emoji_modifier(c: char, ctx: u16) -> Option<(int, u16)> {
    if ctx == EMOJI_MODIFIER && spec_is_emoji_modifier_base(c) {
        Some((0int, EMOJI_PRESENTATION))
    } else {
        None
    }
}

/// A regional indicator in front of regional indicators is one cell wide.
pub open spec fn rule_regional_indicator(c: char, ctx: u16) -> Option<(int, u16)> {
    if (ctx == REGIONAL_INDICATOR || ctx == SEVERAL_REGIONAL_INDICATOR) && is_regional_indicator(
        c,
    ) {
        Some((1int, SEVERAL_REGIONAL_INDICATOR))
    } else {
        None
    }
}

/// What may stand in front of a zero width joiner that joins it to an emoji: the joiner
/// itself, then a keycap, regional indicators counted in pairs, a skin tone modifier, a tag
/// sequence read from its end to the black flag, or an emoji.
pub open spec fn rule_zwj_emoji(cjk: bool, c: char, ctx: u16) -> Option<(int, u16)> {
    if c == '\u{200D}' && (ctx == EMOJI_PRESENTATION || ctx == SEVERAL_REGIONAL_INDICATOR || ctx
        == EVEN_REGIONAL_INDICATOR_ZWJ_PRESENTATION || ctx
        == ODD_REGIONAL_INDICATOR_ZWJ_PRESENTATION || ctx == EMOJI_MODIFIER) {
        Some((0int, ZWJ_EMOJI_PRESENTATION))
    } else if ctx == ZWJ_EMOJI_PRESENTATION && c == '\u{20E3}' {
        Some((0int, KEYCAP_ZWJ_EMOJI_PRESENTATION))
    } else if ctx == ZWJ_EMOJI_PRESENTATION && is_regional_indicator(c) {
        Some((1int, REGIONAL_INDICATOR_ZWJ_PRESENTATION))
    } else if (ctx == REGIONAL_INDICATOR_ZWJ_PRESENTATION || ctx
        == ODD_REGIONAL_INDICATOR_ZWJ_PRESENTATION) && is_regional_indicator(c) {
        Some((-1int, EVEN_REGIONAL_INDICATOR_ZWJ_PRESENTATION))
    } else if ctx == EVEN_REGIONAL_INDICATOR_ZWJ_PRESENTATION && is_regional_indicator(c) {
        Some((3int, ODD_REGIONAL_INDICATOR_ZWJ_PRESENTATION))
    } else if ctx == ZWJ_EMOJI_PRESENTATION && is_skin_tone_modifier(c) {
        Some((0int, EMOJI_MODIFIER))
    } else if ctx == ZWJ_EMOJI_PRESENTATION && c == '\u{E007F}' {
        Some((0int, TAG_END_ZWJ_EMOJI_PRESENTATION))
    } else if is_tag_letter(c) && spec_tag_letter_successor(ctx) is Some {
        Some((0int, spec_tag_letter_successor(ctx)->0))
    } else if is_tag_digit(c) && spec_tag_digit_successor(ctx) is Some {
        Some((0int, spec_tag_digit_successor(ctx)->0))
    } else if c == '\u{1F3F4}' && (ctx == TAG_A3_END_ZWJ_EMOJI_PRESENTATION || ctx
        == TAG_A4_END_ZWJ_EMOJI_PRESENTATION || ctx == TAG_A5_END_ZWJ_EMOJI_PRESENTATION || ctx
        == TAG_A6_END_ZWJ_EMOJI_PRESENTATION || ctx == TAG_D3_END_ZWJ_EMOJI_PRESENTATION) {
        Some((0int, EMOJI_PRESENTATION))
    } else if ctx == ZWJ_EMOJI_PRESENTATION && spec_lookup_width(c, cjk).1 == EMOJI_PRESENTATION {
        Some((0int, EMOJI_PRESENTATION))
    } else {
        None
    }
}

/// The state after one more tag letter: up to six letters are counted.
pub open spec fn spec_tag_letter_successor(ctx: u16) -> Option<u16> {
    if ctx == TAG_END_ZWJ_EMOJI_PRESENTATION {
        Some(TAG_A1_END_ZWJ_EMOJI_PRESENTATION)
    } else if ctx == TAG_A1_END_ZWJ_EMOJI_PRESENTATION {
        Some(TAG_A2_END_ZWJ_EMOJI_PRESENTATION)
    } else if ctx == TAG_A2_END_ZWJ_EMOJI_PRESENTATION {
        Some(TAG_A3_END_ZWJ_EMOJI_PRESENTATION)
    } else if ctx == TAG_A3_END_ZWJ_EMOJI_PRESENTATION {
        Some(TAG_A4_END_ZWJ_EMOJI_PRESENTATION)
    } else if ctx == TAG_A4_END_ZWJ_EMOJI_PRESENTATION {
        Some(TAG_A5_END_ZWJ_EMOJI_PRESENTATION)
    } else if ctx == TAG_A5_END_ZWJ_EMOJI_PRESENTATION {
        Some(TAG_A6_END_ZWJ_EMOJI_PRESENTATION)
    } else {
        None
    }
}

/// The state after one more tag digit: up to three digits are counted, in front of at most
/// four letters.
pub open spec fn spec_tag_digit_successor(ctx: u16) -> Option<u16> {
    if ctx == TAG_END_ZWJ_EMOJI_PRESENTATION || ctx == TAG_A1_END_ZWJ_EMOJI_PRESENTATION || ctx
        == TAG_A2_END_ZWJ_EMOJI_PRESENTATION || ctx == TAG_A3_END_ZWJ_EMOJI_PRESENTATION || ctx
        == TAG_A4_END_ZWJ_EMOJI_PRESENTATION {
        Some(TAG_D1_END_ZWJ_EMOJI_PRESENTATION)
    } else if ctx == TAG_D1_END_ZWJ_EMOJI_PRESENTATION {
        Some(TAG_D2_END_ZWJ_EMOJI_PRESENTATION)
    } else if ctx == TAG_D2_END_ZWJ_EMOJI_PRESENTATION {
        Some(TAG_D3_END_ZWJ_EMOJI_PRESENTATION)
    } else {
        None
    }
}

/// The rules that read a sequence in progress, in their order: the first that applies
/// decides, and where none does the classifier does.
pub open spec fn spec_width_in_sequence(cjk: bool, c: char, ctx: u16) -> (int, u16) {
    if let Some(step) = rule_ligature_transparent(c, ctx) {
        step
    } else if let Some(step) = rule_arabic(cjk, c, ctx) {
        step
    } else if let Some(step) = rule_script_ligature(c, ctx) {
        step
    } else if let Some(step) = rule_emoji_modifier(c, ctx) {
        step
    } else if let Some(step) = rule_regional_indicator(c, ctx) {
        step
    } else if let Some(step) = rule_zwj_emoji(cjk, c, ctx) {
        step
    } else {
        (spec_lookup_width(c, cjk).0 as int, spec_lookup_width(c, cjk).1)
    }
}

/// The rules above U+00A0 in front of a pending context: the variation selectors first, then
/// what their flags ask of a base, then the sequences in progress.
pub open spec fn spec_width_in_context(cjk: bool, c: char, ctx: u16) -> (int, u16) {
    if let Some(step) = rule_variation_selector(cjk, c, ctx) {
        step
    } else if let Some(step) = rule_text_presentation(cjk, c, ctx) {
        step
    } else if let Some(step) = rule_quotation_mark(cjk, c, settle_text(cjk, ctx)) {
        step
    } else {
        spec_width_in_sequence(cjk, c, settle_vs1_2_3(settle_text(cjk, ctx)))
    }
}

/// One step of the scan: what the codepoint `c` adds to the width of the text, given the
/// context `ctx` that the codepoints to its right have left, and the context that it leaves.
pub open spec fn spec_width_in(cjk: bool, c: char, ctx: u16) -> (int, u16) {
    if let Some(step) = rule_emoji_presentation(c, ctx) {
        step
    } else if let Some(step) = rule_struck_relation(cjk, c, settle_emoji(ctx)) {
        step
    } else if c <= '\u{A0}' {
        rule_control(c, settle_emoji(ctx))
    } else if settle_emoji(ctx) == DEFAULT {
        (spec_lookup_width(c, cjk).0 as int, spec_lookup_width(c, cjk).1)
    } else {
        spec_width_in_context(cjk, c, settle_emoji(ctx))
    }
}

/// The scan: the codepoints of `text` are read from the last to the first, each in the context
/// that the codepoints to its right have left, starting from `init`. The result is the sum of
/// what each adds, and the context in front of the first.
pub open spec fn spec_scan(cjk: bool, text: Seq<char>, init: u16) -> (int, u16)
    decreases text.len(),
{
    if text.len() == 0 {
        (0, init)
    } else {
        let step = spec_width_in(cjk, text.last(), init);
        let rest = spec_scan(cjk, text.drop_last(), step.1);
        (step.0 + rest.0, rest.1)
    }
}

/// The displayed width of `text`: what a scan from no pending context sums up.
pub open spec fn spec_str_width(text: Seq<char>, cjk: bool) -> int {
    spec_scan(cjk, text, DEFAULT).0
}

} // verus!
