//! The codepoint classifier, the step of the scan and the scans themselves.
use crate::props::{
    covers, is_emoji_modifier_base, is_joining_group_alef, is_joining_group_lam,
    is_ligature_transparent, is_regional_indicator, is_skin_tone_modifier,
    is_solidus_transparent, is_tifinagh_consonant, is_transparent_zero_width,
    starts_emoji_presentation_seq, starts_non_ideographic_text_presentation_seq, table_contains,
};
use crate::rules::{
    rule_arabic, rule_script_ligature, rule_zwj_emoji, spec_scan, spec_str_width,
    spec_tag_digit_successor, spec_tag_letter_successor, spec_width_in, spec_width_in_sequence,
};
use crate::soundness::{
    lemma_lookup_sound, lemma_step_range, lemma_step_sound, lemma_str_width_bounds,
};
use crate::tables::{
    lemma_ambiguous_is_table, lemma_emoji_presentation_is_table, lemma_wide_is_table,
    lemma_zero_width_is_table, AMBIGUOUS, EMOJI_PRESENTATION as EMOJI_PRESENTATION_RANGES, WIDE,
    ZERO_WIDTH,
};
use crate::width_info::{
    WidthInfo, BUGINESE_LETTER_YA, BUGINESE_VOWEL_SIGN_I_ZWJ_LETTER_YA,
    COMBINING_LONG_SOLIDUS_OVERLAY, DEFAULT, EMOJI_MODIFIER, EMOJI_PRESENTATION,
    EVEN_REGIONAL_INDICATOR_ZWJ_PRESENTATION, HEBREW_LETTER_LAMED, JOINING_GROUP_ALEF,
    KEYCAP_ZWJ_EMOJI_PRESENTATION, KHMER_COENG_ELIGIBLE_LETTER, KIRAT_RAI_VOWEL_SIGN_AI,
    KIRAT_RAI_VOWEL_SIGN_E, LINE_FEED, LISU_TONE_LETTER_MYA_NA_JEU,
    ODD_REGIONAL_INDICATOR_ZWJ_PRESENTATION, OLD_TURKIC_LETTER_ORKHON_I, REGIONAL_INDICATOR,
    REGIONAL_INDICATOR_ZWJ_PRESENTATION, SEVERAL_REGIONAL_INDICATOR, SOLIDUS_OVERLAY_ALEF,
    TAG_A1_END_ZWJ_EMOJI_PRESENTATION, TAG_A3_END_ZWJ_EMOJI_PRESENTATION,
    TAG_A4_END_ZWJ_EMOJI_PRESENTATION, TAG_A5_END_ZWJ_EMOJI_PRESENTATION,
    TAG_A6_END_ZWJ_EMOJI_PRESENTATION, TAG_D1_END_ZWJ_EMOJI_PRESENTATION,
    TAG_D2_END_ZWJ_EMOJI_PRESENTATION, TAG_D3_END_ZWJ_EMOJI_PRESENTATION,
    TAG_END_ZWJ_EMOJI_PRESENTATION, TIFINAGH_CONSONANT, TIFINAGH_JOINER_CONSONANT,
    VARIATION_SELECTOR_15, VARIATION_SELECTOR_16, VARIATION_SELECTOR_1_2_OR_3,
    ZWJ_BUGINESE_LETTER_YA, ZWJ_EMOJI_PRESENTATION, ZWJ_HEBREW_LETTER_LAMED,
    ZWJ_OLD_TURKIC_LETTER_ORKHON_I, ZWJ_TIFINAGH_CONSONANT,
};
use vstd::arithmetic::div_mod::{
    lemma_fundamental_div_mod, lemma_mod_multiples_vanish, lemma_small_mod,
};
use vstd::prelude::*;
use vstd::std_specs::iter::IteratorSpec;

verus! {

/// The width of a codepoint taken alone, by the width tables: none for a mark, two cells for a
/// wide codepoint and, in wide-ambiguous mode, for an ambiguous one, else one cell.
///
/// Opaque, to keep the tables out of proofs that do not read them: reveal it where one does.
#[verifier::opaque]
pub open spec fn spec_table_width(c: char, cjk: bool) -> u8 {
    let cp = c as u32;
    if covers(ZERO_WIDTH@, cp) {
        0
    } else if covers(WIDE@, cp) {
        2
    } else if cjk && covers(AMBIGUOUS@, cp) {
        2
    } else {
        1
    }
}

/// The codepoints that are drawn as emoji by default, regional indicators left out.
///
/// Opaque, to keep the tables out of proofs that do not read them: reveal it where one does.
#[verifier::opaque]
pub open spec fn spec_has_emoji_presentation(c: char) -> bool {
    covers(EMOJI_PRESENTATION_RANGES@, c as u32)
}

/// The codepoints that start a context of their own, each with its width and the state that
/// it starts.
pub open spec fn spec_initiator(c: char, cjk: bool) -> Option<(u8, u16)> {
    if c == '\u{0338}' && cjk {
        Some((0u8, COMBINING_LONG_SOLIDUS_OVERLAY))
    } else if c == '\u{05DC}' {
        Some((1u8, HEBREW_LETTER_LAMED))
    } else if is_joining_group_alef(c) {
        Some((1u8, JOINING_GROUP_ALEF))
    } else if '\u{1780}' <= c <= '\u{17AF}' {
        Some((1u8, KHMER_COENG_ELIGIBLE_LETTER))
    } else if c == '\u{1A10}' {
        Some((1u8, BUGINESE_LETTER_YA))
    } else if is_tifinagh_consonant(c) {
        Some((1u8, TIFINAGH_CONSONANT))
    } else if '\u{A4FC}' <= c <= '\u{A4FD}' {
        Some((1u8, LISU_TONE_LETTER_MYA_NA_JEU))
    } else if cjk && (c == '\u{FE00}' || c == '\u{FE02}') {
        Some((0u8, VARIATION_SELECTOR_1_2_OR_3))
    } else if !cjk && c == '\u{FE01}' {
        Some((0u8, VARIATION_SELECTOR_1_2_OR_3))
    } else if !cjk && c == '\u{FE0E}' {
        Some((0u8, VARIATION_SELECTOR_15))
    } else if c == '\u{FE0F}' {
        Some((0u8, VARIATION_SELECTOR_16))
    } else if c == '\u{10C03}' {
        Some((1u8, OLD_TURKIC_LETTER_ORKHON_I))
    } else if c == '\u{16D67}' {
        Some((1u8, KIRAT_RAI_VOWEL_SIGN_E))
    } else if c == '\u{16D68}' {
        Some((1u8, KIRAT_RAI_VOWEL_SIGN_AI))
    } else if is_regional_indicator(c) {
        Some((1u8, REGIONAL_INDICATOR))
    } else if is_skin_tone_modifier(c) {
        Some((2u8, EMOJI_MODIFIER))
    } else if spec_has_emoji_presentation(c) {
        Some((2u8, EMOJI_PRESENTATION))
    } else {
        None
    }
}

/// The classifier: the width of a codepoint taken alone and the state that it starts.
///
/// Up to U+00A0 every codepoint has width one, and only the line feed starts a state. Above,
/// an initiator has the width and state listed for it, and any other codepoint has its table
/// width and starts nothing.
pub open spec fn spec_lookup_width(c: char, cjk: bool) -> (u8, u16) {
    if c <= '\u{A0}' {
        (
            1,
            if c == '\n' {
                LINE_FEED
            } else {
                DEFAULT
            },
        )
    } else {
        match spec_initiator(c, cjk) {
            Some(found) => found,
            None => (spec_table_width(c, cjk), DEFAULT),
        }
    }
}

fn table_width(c: char, cjk: bool) -> (width: u8)
    ensures
        width == spec_table_width(c, cjk),
        width <= 2,
{
    proof {
        reveal(spec_table_width);
        lemma_zero_width_is_table();
        lemma_wide_is_table();
        lemma_ambiguous_is_table();
    }
    let cp = c as u32;
    if table_contains(&ZERO_WIDTH, cp) {
        0
    } else if table_contains(&WIDE, cp) {
        2
    } else if cjk && table_contains(&AMBIGUOUS, cp) {
        2
    } else {
        1
    }
}

fn initiator(c: char, cjk: bool) -> (found: Option<(u8, WidthInfo)>)
    ensures
        match (found, spec_initiator(c, cjk)) {
            (Some(got), Some(listed)) => got.0 == listed.0 && got.1@ == listed.1,
            (None, None) => true,
            _ => false,
        },
{
    proof {
        reveal(spec_has_emoji_presentation);
        lemma_emoji_presentation_is_table();
    }
    if c == '\u{0338}' && cjk {
        Some((0, WidthInfo::new(COMBINING_LONG_SOLIDUS_OVERLAY)))
    } else if c == '\u{05DC}' {
        Some((1, WidthInfo::new(HEBREW_LETTER_LAMED)))
    } else if ('\u{0622}' <= c && c <= '\u{0623}') || c == '\u{0625}' || c == '\u{0627}' || (
    '\u{0671}' <= c && c <= '\u{0673}') || c == '\u{0675}' || ('\u{0773}' <= c && c
        <= '\u{0774}') || ('\u{0870}' <= c && c <= '\u{0882}') {
        Some((1, WidthInfo::new(JOINING_GROUP_ALEF)))
    } else if '\u{1780}' <= c && c <= '\u{17AF}' {
        Some((1, WidthInfo::new(KHMER_COENG_ELIGIBLE_LETTER)))
    } else if c == '\u{1A10}' {
        Some((1, WidthInfo::new(BUGINESE_LETTER_YA)))
    } else if ('\u{2D31}' <= c && c <= '\u{2D65}') || c == '\u{2D6F}' {
        Some((1, WidthInfo::new(TIFINAGH_CONSONANT)))
    } else if '\u{A4FC}' <= c && c <= '\u{A4FD}' {
        Some((1, WidthInfo::new(LISU_TONE_LETTER_MYA_NA_JEU)))
    } else if cjk && (c == '\u{FE00}' || c == '\u{FE02}') {
        Some((0, WidthInfo::new(VARIATION_SELECTOR_1_2_OR_3)))
    } else if !cjk && c == '\u{FE01}' {
        Some((0, WidthInfo::new(VARIATION_SELECTOR_1_2_OR_3)))
    } else if !cjk && c == '\u{FE0E}' {
        Some((0, WidthInfo::new(VARIATION_SELECTOR_15)))
    } else if c == '\u{FE0F}' {
        Some((0, WidthInfo::new(VARIATION_SELECTOR_16)))
    } else if c == '\u{10C03}' {
        Some((1, WidthInfo::new(OLD_TURKIC_LETTER_ORKHON_I)))
    } else if c == '\u{16D67}' {
        Some((1, WidthInfo::new(KIRAT_RAI_VOWEL_SIGN_E)))
    } else if c == '\u{16D68}' {
        Some((1, WidthInfo::new(KIRAT_RAI_VOWEL_SIGN_AI)))
    } else if '\u{1F1E6}' <= c && c <= '\u{1F1FF}' {
        Some((1, WidthInfo::new(REGIONAL_INDICATOR)))
    } else if '\u{1F3FB}' <= c && c <= '\u{1F3FF}' {
        Some((2, WidthInfo::new(EMOJI_MODIFIER)))
    } else if table_contains(&EMOJI_PRESENTATION_RANGES, c as u32) {
        Some((2, WidthInfo::new(EMOJI_PRESENTATION)))
    } else {
        None
    }
}

fn classify(c: char, cjk: bool) -> (found: (u8, WidthInfo))
    ensures
        found.0 == spec_lookup_width(c, cjk).0,
        found.1@ == spec_lookup_width(c, cjk).1,
        found.0 <= 2,
        found.1.wf(),
{
    proof {
        lemma_lookup_sound(c, cjk, DEFAULT);
    }
    if c <= '\u{A0}' {
        if c == '\n' {
            (1, WidthInfo::new(LINE_FEED))
        } else {
            (1, WidthInfo::new(DEFAULT))
        }
    } else {
        match initiator(c, cjk) {
            Some(found) => found,
            None => (table_width(c, cjk), WidthInfo::new(DEFAULT)),
        }
    }
}

/// The classifier in narrow-ambiguous mode.
pub fn lookup_width(c: char) -> (found: (u8, WidthInfo))
    ensures
        found.0 == spec_lookup_width(c, false).0,
        found.1@ == spec_lookup_width(c, false).1,
        found.0 <= 2,
        found.1.wf(),
{
    classify(c, false)
}

/// The classifier in wide-ambiguous mode.
pub fn lookup_width_cjk(c: char) -> (found: (u8, WidthInfo))
    ensures
        found.0 == spec_lookup_width(c, true).0,
        found.1@ == spec_lookup_width(c, true).1,
        found.0 <= 2,
        found.1.wf(),
{
    classify(c, true)
}

/// The classifier in the mode that `IS_CJK` selects.
pub fn lookup_width_generic<const IS_CJK: bool>(c: char) -> (found: (u8, WidthInfo))
    ensures
        found.0 == spec_lookup_width(c, IS_CJK).0,
        found.1@ == spec_lookup_width(c, IS_CJK).1,
        found.0 <= 2,
        found.1.wf(),
{
    if IS_CJK {
        lookup_width_cjk(c)
    } else {
        lookup_width(c)
    }
}

/// The control codes: they have no width of their own.
pub open spec fn is_control(c: char) -> bool {
    c < '\u{20}' || '\u{7F}' <= c < '\u{A0}'
}

/// The width of a codepoint taken alone: none for a control code, else the classifier's.
pub open spec fn spec_single_char_width(c: char, cjk: bool) -> Option<usize> {
    if is_control(c) {
        None
    } else {
        Some(spec_lookup_width(c, cjk).0 as usize)
    }
}

/// The width of `c` taken alone, or `None` if `c` is a control code. Ambiguous codepoints
/// count as narrow.
pub fn single_char_width(c: char) -> (width: Option<usize>)
    ensures
        width == spec_single_char_width(c, false),
        width is None <==> is_control(c),
        width is Some ==> width->0 <= 2,
{
    single_char_width_generic::<false>(c)
}

/// The width of `c` taken alone, or `None` if `c` is a control code. Ambiguous codepoints
/// count as wide.
pub fn single_char_width_cjk(c: char) -> (width: Option<usize>)
    ensures
        width == spec_single_char_width(c, true),
        width is None <==> is_control(c),
        width is Some ==> width->0 <= 2,
{
    single_char_width_generic::<true>(c)
}

/// The width of `c` taken alone in the mode that `IS_CJK` selects.
pub fn single_char_width_generic<const IS_CJK: bool>(c: char) -> (width: Option<usize>)
    ensures
        width == spec_single_char_width(c, IS_CJK),
        width is None <==> is_control(c),
        width is Some ==> width->0 <= 2,
{
    let ascii = c < '\u{7F}';
    if ascii {
        if c >= '\u{20}' {
            Some(1)
        } else {
            None
        }
    } else if c >= '\u{A0}' {
        Some(usize::from(lookup_width_generic::<IS_CJK>(c).0))
    } else {
        None
    }
}

/// One step of the scan in narrow-ambiguous mode.
pub fn width_in_str(c: char, next_info: WidthInfo) -> (step: (i8, WidthInfo))
    ensures
        step.0 as int == spec_width_in(false, c, next_info@).0,
        step.1@ == spec_width_in(false, c, next_info@).1,
        -1 <= step.0 <= 3,
        next_info.wf() ==> step.1.wf(),
{
    width_in_generic::<false>(c, next_info)
}

/// One step of the scan in wide-ambiguous mode.
pub fn width_in_str_cjk(c: char, next_info: WidthInfo) -> (step: (i8, WidthInfo))
    ensures
        step.0 as int == spec_width_in(true, c, next_info@).0,
        step.1@ == spec_width_in(true, c, next_info@).1,
        -1 <= step.0 <= 3,
        next_info.wf() ==> step.1.wf(),
{
    width_in_generic::<true>(c, next_info)
}

/// Whether a rule's executable form gave what the rule says.
pub open spec fn same_step(got: Option<(i8, WidthInfo)>, rule: Option<(int, u16)>) -> bool {
    match (got, rule) {
        (Some(step), Some(said)) => step.0 as int == said.0 && step.1@ == said.1,
        (None, None) => true,
        _ => false,
    }
}

fn arabic_step<const IS_CJK: bool>(c: char, state: u16) -> (step: Option<(i8, WidthInfo)>)
    ensures
        same_step(step, rule_arabic(IS_CJK, c, state)),
{
    if IS_CJK && state == COMBINING_LONG_SOLIDUS_OVERLAY && is_solidus_transparent(c) {
        let width = lookup_width_generic::<IS_CJK>(c).0;
        Some((width as i8, WidthInfo::new(COMBINING_LONG_SOLIDUS_OVERLAY)))
    } else if IS_CJK && state == JOINING_GROUP_ALEF && c == '\u{0338}' {
        Some((0, WidthInfo::new(SOLIDUS_OVERLAY_ALEF)))
    } else if state == JOINING_GROUP_ALEF && is_joining_group_lam(c) {
        Some((0, WidthInfo::new(DEFAULT)))
    } else if IS_CJK && state == SOLIDUS_OVERLAY_ALEF && is_joining_group_lam(c) {
        Some((0, WidthInfo::new(DEFAULT)))
    } else if state == JOINING_GROUP_ALEF && is_transparent_zero_width(c) {
        Some((0, WidthInfo::new(JOINING_GROUP_ALEF)))
    } else {
        None
    }
}

fn script_ligature_step(c: char, state: u16) -> (step: Option<(i8, WidthInfo)>)
    ensures
        same_step(step, rule_script_ligature(c, state)),
{
    let tifinagh = ('\u{2D31}' <= c && c <= '\u{2D65}') || c == '\u{2D6F}';
    if state == ZWJ_HEBREW_LETTER_LAMED && c == '\u{05D0}' {
        Some((0, WidthInfo::new(DEFAULT)))
    } else if state == KHMER_COENG_ELIGIBLE_LETTER && c == '\u{17D2}' {
        Some((-1, WidthInfo::new(DEFAULT)))
    } else if state == ZWJ_BUGINESE_LETTER_YA && c == '\u{1A17}' {
        Some((0, WidthInfo::new(BUGINESE_VOWEL_SIGN_I_ZWJ_LETTER_YA)))
    } else if state == BUGINESE_VOWEL_SIGN_I_ZWJ_LETTER_YA && c == '\u{1A15}' {
        Some((0, WidthInfo::new(DEFAULT)))
    } else if (state == TIFINAGH_CONSONANT || state == ZWJ_TIFINAGH_CONSONANT) && c
        == '\u{2D7F}' {
        Some((1, WidthInfo::new(TIFINAGH_JOINER_CONSONANT)))
    } else if state == ZWJ_TIFINAGH_CONSONANT && tifinagh {
        Some((0, WidthInfo::new(DEFAULT)))
    } else if state == TIFINAGH_JOINER_CONSONANT && tifinagh {
        Some((-1, WidthInfo::new(DEFAULT)))
    } else if state == LISU_TONE_LETTER_MYA_NA_JEU && '\u{A4F8}' <= c && c <= '\u{A4FB}' {
        Some((0, WidthInfo::new(DEFAULT)))
    } else if state == ZWJ_OLD_TURKIC_LETTER_ORKHON_I && c == '\u{10C32}' {
        Some((0, WidthInfo::new(DEFAULT)))
    } else if state == KIRAT_RAI_VOWEL_SIGN_E && (c == '\u{16D63}' || c == '\u{16D69}') {
        Some((0, WidthInfo::new(DEFAULT)))
    } else if state == KIRAT_RAI_VOWEL_SIGN_E && c == '\u{16D67}' {
        Some((0, WidthInfo::new(KIRAT_RAI_VOWEL_SIGN_AI)))
    } else if state == KIRAT_RAI_VOWEL_SIGN_E && c == '\u{16D68}' {
        Some((1, WidthInfo::new(KIRAT_RAI_VOWEL_SIGN_E)))
    } else if state == KIRAT_RAI_VOWEL_SIGN_AI && c == '\u{16D63}' {
        Some((0, WidthInfo::new(DEFAULT)))
    } else {
        None
    }
}

fn tag_letter_successor(state: u16) -> (next: Option<u16>)
    ensures
        next == spec_tag_letter_successor(state),
{
    if state == TAG_END_ZWJ_EMOJI_PRESENTATION {
        Some(TAG_A1_END_ZWJ_EMOJI_PRESENTATION)
    } else if TAG_A1_END_ZWJ_EMOJI_PRESENTATION <= state && state
        <= TAG_A5_END_ZWJ_EMOJI_PRESENTATION {
        Some(state + 1)
    } else {
        None
    }
}

fn tag_digit_successor(state: u16) -> (next: Option<u16>)
    ensures
        next == spec_tag_digit_successor(state),
{
    if state == TAG_END_ZWJ_EMOJI_PRESENTATION || (TAG_A1_END_ZWJ_EMOJI_PRESENTATION <= state
        && state <= TAG_A4_END_ZWJ_EMOJI_PRESENTATION) {
        Some(TAG_D1_END_ZWJ_EMOJI_PRESENTATION)
    } else if state == TAG_D1_END_ZWJ_EMOJI_PRESENTATION || state
        == TAG_D2_END_ZWJ_EMOJI_PRESENTATION {
        Some(state + 1)
    } else {
        None
    }
}

fn zwj_emoji_step<const IS_CJK: bool>(c: char, state: u16) -> (step: Option<(i8, WidthInfo)>)
    ensures
        same_step(step, rule_zwj_emoji(IS_CJK, c, state)),
{
    let regional = '\u{1F1E6}' <= c && c <= '\u{1F1FF}';
    let tag_letter = '\u{E0061}' <= c && c <= '\u{E007A}';
    let tag_digit = '\u{E0030}' <= c && c <= '\u{E0039}';
    let letter_next = tag_letter_successor(state);
    let digit_next = tag_digit_successor(state);
    if c == '\u{200D}' && (state == EMOJI_PRESENTATION || state == SEVERAL_REGIONAL_INDICATOR
        || state == EVEN_REGIONAL_INDICATOR_ZWJ_PRESENTATION || state
        == ODD_REGIONAL_INDICATOR_ZWJ_PRESENTATION || state == EMOJI_MODIFIER) {
        Some((0, WidthInfo::new(ZWJ_EMOJI_PRESENTATION)))
    } else if state == ZWJ_EMOJI_PRESENTATION && c == '\u{20E3}' {
        Some((0, WidthInfo::new(KEYCAP_ZWJ_EMOJI_PRESENTATION)))
    } else if state == ZWJ_EMOJI_PRESENTATION && regional {
        Some((1, WidthInfo::new(REGIONAL_INDICATOR_ZWJ_PRESENTATION)))
    } else if (state == REGIONAL_INDICATOR_ZWJ_PRESENTATION || state
        == ODD_REGIONAL_INDICATOR_ZWJ_PRESENTATION) && regional {
        Some((-1, WidthInfo::new(EVEN_REGIONAL_INDICATOR_ZWJ_PRESENTATION)))
    } else if state == EVEN_REGIONAL_INDICATOR_ZWJ_PRESENTATION && regional {
        Some((3, WidthInfo::new(ODD_REGIONAL_INDICATOR_ZWJ_PRESENTATION)))
    } else if state == ZWJ_EMOJI_PRESENTATION && '\u{1F3FB}' <= c && c <= '\u{1F3FF}' {
        Some((0, WidthInfo::new(EMOJI_MODIFIER)))
    } else if state == ZWJ_EMOJI_PRESENTATION && c == '\u{E007F}' {
        Some((0, WidthInfo::new(TAG_END_ZWJ_EMOJI_PRESENTATION)))
    } else if tag_letter && letter_next.is_some() {
        Some((0, WidthInfo::new(letter_next.unwrap())))
    } else if tag_digit && digit_next.is_some() {
        Some((0, WidthInfo::new(digit_next.unwrap())))
    } else if c == '\u{1F3F4}' && ((TAG_A3_END_ZWJ_EMOJI_PRESENTATION <= state && state
        <= TAG_A6_END_ZWJ_EMOJI_PRESENTATION) || state == TAG_D3_END_ZWJ_EMOJI_PRESENTATION) {
        Some((0, WidthInfo::new(EMOJI_PRESENTATION)))
    } else if state == ZWJ_EMOJI_PRESENTATION && lookup_width_generic::<IS_CJK>(c).1.bits()
        == EMOJI_PRESENTATION {
        Some((0, WidthInfo::new(EMOJI_PRESENTATION)))
    } else {
        None
    }
}

fn width_in_sequence<const IS_CJK: bool>(c: char, next_info: WidthInfo) -> (step: (
    i8,
    WidthInfo,
))
    ensures
        step.0 as int == spec_width_in_sequence(IS_CJK, c, next_info@).0,
        step.1@ == spec_width_in_sequence(IS_CJK, c, next_info@).1,
{
    if next_info.is_ligature_transparent() {
        if c == '\u{200D}' {
            return (0, next_info.set_zwj_bit());
        } else if is_ligature_transparent(c) {
            return (0, next_info);
        }
    }
    let state = next_info.bits();
    if let Some(step) = arabic_step::<IS_CJK>(c, state) {
        return step;
    }
    if let Some(step) = script_ligature_step(c, state) {
        return step;
    }
    if state == EMOJI_MODIFIER && is_emoji_modifier_base(c) {
        return (0, WidthInfo::new(EMOJI_PRESENTATION));
    }
    if (state == REGIONAL_INDICATOR || state == SEVERAL_REGIONAL_INDICATOR) && '\u{1F1E6}' <= c
        && c <= '\u{1F1FF}' {
        return (1, WidthInfo::new(SEVERAL_REGIONAL_INDICATOR));
    }
    if let Some(step) = zwj_emoji_step::<IS_CJK>(c, state) {
        return step;
    }
    let found = lookup_width_generic::<IS_CJK>(c);
    (found.0 as i8, found.1)
}

/// One step of the scan in the mode that `IS_CJK` selects.
pub fn width_in_generic<const IS_CJK: bool>(c: char, next_info: WidthInfo) -> (step: (
    i8,
    WidthInfo,
))
    ensures
        step.0 as int == spec_width_in(IS_CJK, c, next_info@).0,
        step.1@ == spec_width_in(IS_CJK, c, next_info@).1,
        -1 <= step.0 <= 3,
        next_info.wf() ==> step.1.wf(),
{
    proof {
        lemma_step_range(IS_CJK, c, next_info@);
        if next_info.wf() {
            lemma_step_sound(IS_CJK, c, next_info@);
        }
    }
    let mut next_info = next_info;
    if next_info.is_emoji_presentation() {
        if starts_emoji_presentation_seq(c) {
            let width: i8 = if next_info.is_zwj_emoji_presentation() {
                0
            } else {
                2
            };
            return (width, WidthInfo::new(EMOJI_PRESENTATION));
        } else {
            next_info = next_info.unset_emoji_presentation();
        }
    }
    let state = next_info.bits();
    if IS_CJK && (state == COMBINING_LONG_SOLIDUS_OVERLAY || state == SOLIDUS_OVERLAY_ALEF) && (c
        == '<' || c == '=' || c == '>') {
        return (2, WidthInfo::new(DEFAULT));
    }
    if c <= '\u{A0}' {
        if c == '\n' {
            return (1, WidthInfo::new(LINE_FEED));
        } else if c == '\r' && state == LINE_FEED {
            return (0, WidthInfo::new(DEFAULT));
        } else {
            return (1, WidthInfo::new(DEFAULT));
        }
    }
    if state == DEFAULT {
        let found = lookup_width_generic::<IS_CJK>(c);
        return (found.0 as i8, found.1);
    }
    if c == '\u{FE0F}' {
        return (0, next_info.set_emoji_presentation());
    }
    if IS_CJK {
        if c == '\u{FE00}' || c == '\u{FE02}' {
            return (0, next_info.set_vs1_2_3());
        }
    } else {
        if c == '\u{FE01}' {
            return (0, next_info.set_vs1_2_3());
        }
        if c == '\u{FE0E}' {
            return (0, next_info.set_text_presentation());
        }
        if next_info.is_text_presentation() {
            if starts_non_ideographic_text_presentation_seq(c) {
                return (1, WidthInfo::new(DEFAULT));
            } else {
                next_info = next_info.unset_text_presentation();
            }
        }
    }
    if next_info.is_vs1_2_3() {
        if c == '\u{2018}' || c == '\u{2019}' || c == '\u{201C}' || c == '\u{201D}' {
            let width: i8 = if IS_CJK {
                1
            } else {
                2
            };
            return (width, WidthInfo::new(DEFAULT));
        } else {
            next_info = next_info.unset_vs1_2_3();
        }
    }
    width_in_sequence::<IS_CJK>(c, next_info)
}

/// The number of values of `usize`, by which the running sum wraps.
pub open spec fn usize_range() -> int {
    usize::MAX as int + 1
}

proof fn lemma_wrapped_step(sum: int, width: usize, add: int)
    requires
        width as int == sum % usize_range(),
        -128 <= add <= 127,
    ensures
        width.wrapping_add_signed(add as isize) as int == (sum + add) % usize_range(),
{
    let range = usize_range();
    let moved = width as int + add;
    lemma_fundamental_div_mod(sum, range);
    assert(sum + add == range * (sum / range) + moved);
    lemma_mod_multiples_vanish(sum / range, moved, range);
    if moved < 0 {
        lemma_mod_multiples_vanish(-1, moved + range, range);
        assert(range * -1 + (moved + range) == moved);
        lemma_small_mod((moved + range) as nat, range as nat);
    } else if moved >= range {
        lemma_mod_multiples_vanish(1, moved - range, range);
        assert(range * 1 + (moved - range) == moved);
        lemma_small_mod((moved - range) as nat, range as nat);
    } else {
        lemma_small_mod(moved as nat, range as nat);
    }
}

fn wrapping_scan<const IS_CJK: bool, S: DoubleEndedIterator<Item = char>>(s: S) -> (width: usize)
    requires
        s.obeys_prophetic_iter_laws(),
        s.decrease() is Some,
    ensures
        width as int == spec_str_width(s.remaining(), IS_CJK) % usize_range(),
        3 * s.remaining().len() <= usize::MAX ==> width as int == spec_str_width(
            s.remaining(),
            IS_CJK,
        ),
{
    assert(3 * s.remaining().len() <= usize::MAX ==> spec_str_width(s.remaining(), IS_CJK)
        % usize_range() == spec_str_width(s.remaining(), IS_CJK)) by {
        lemma_str_width_bounds(s.remaining(), IS_CJK);
        if 3 * s.remaining().len() <= usize::MAX {
            lemma_small_mod(spec_str_width(s.remaining(), IS_CJK) as nat, usize_range() as nat);
        }
    }
    let mut rest = s;
    let mut width: usize = 0;
    let mut next_info = WidthInfo::initial();
    let ghost mut sum: int = 0;
    proof {
        lemma_small_mod(0, usize_range() as nat);
    }
    loop
        invariant_except_break
            rest.obeys_prophetic_iter_laws(),
            rest.decrease() is Some,
            sum + spec_scan(IS_CJK, rest.remaining(), next_info@).0 == spec_str_width(
                s.remaining(),
                IS_CJK,
            ),
            width as int == sum % usize_range(),
        ensures
            width as int == spec_str_width(s.remaining(), IS_CJK) % usize_range(),
        decreases rest.decrease()->0,
    {
        match rest.next_back() {
            Some(c) => {
                let (add, info) = width_in_generic::<IS_CJK>(c, next_info);
                proof {
                    lemma_wrapped_step(sum, width, add as int);
                    sum = sum + add as int;
                }
                width = width.wrapping_add_signed(isize::from(add));
                next_info = info;
            },
            None => {
                break;
            },
        }
    }
    width
}

/// The displayed width of the text that `s` yields, ambiguous codepoints counted as narrow.
///
/// The running sum wraps at the range of `usize`, which no text of fewer codepoints than a
/// third of that range can reach.
pub fn str_width<S: DoubleEndedIterator<Item = char>>(s: S) -> (width: usize)
    requires
        s.obeys_prophetic_iter_laws(),
        s.decrease() is Some,
    ensures
        width as int == spec_str_width(s.remaining(), false) % usize_range(),
        3 * s.remaining().len() <= usize::MAX ==> width as int == spec_str_width(
            s.remaining(),
            false,
        ),
{
    wrapping_scan::<false, S>(s)
}

/// The displayed width of the text that `s` yields, ambiguous codepoints counted as wide.
///
/// The running sum wraps at the range of `usize`, which no text of fewer codepoints than a
/// third of that range can reach.
pub fn str_width_cjk<S: DoubleEndedIterator<Item = char>>(s: S) -> (width: usize)
    requires
        s.obeys_prophetic_iter_laws(),
        s.decrease() is Some,
    ensures
        width as int == spec_str_width(s.remaining(), true) % usize_range(),
        3 * s.remaining().len() <= usize::MAX ==> width as int == spec_str_width(
            s.remaining(),
            true,
        ),
{
    wrapping_scan::<true, S>(s)
}

fn checked_scan<const IS_CJK: bool, S: DoubleEndedIterator<Item = char>>(
    s: S,
    init: WidthInfo,
) -> (width: isize)
    requires
        s.obeys_prophetic_iter_laws(),
        s.decrease() is Some,
        3 * s.remaining().len() <= isize::MAX,
    ensures
        width as int == spec_scan(IS_CJK, s.remaining(), init@).0,
{
    let mut rest = s;
    let mut width: isize = 0;
    let mut next_info = init;
    let ghost mut seen: int = 0;
    loop
        invariant_except_break
            rest.obeys_prophetic_iter_laws(),
            rest.decrease() is Some,
            3 * s.remaining().len() <= isize::MAX,
            seen + rest.remaining().len() == s.remaining().len(),
            -seen <= width <= 3 * seen,
            width + spec_scan(IS_CJK, rest.remaining(), next_info@).0 == spec_scan(
                IS_CJK,
                s.remaining(),
                init@,
            ).0,
        ensures
            width as int == spec_scan(IS_CJK, s.remaining(), init@).0,
        decreases rest.decrease()->0,
    {
        match rest.next_back() {
            Some(c) => {
                let (add, info) = width_in_generic::<IS_CJK>(c, next_info);
                width = width + isize::from(add);
                next_info = info;
                proof {
                    seen = seen + 1;
                }
            },
            None => {
                break;
            },
        }
    }
    width
}

/// The sum that a scan of the text that `s` yields adds up from the context `init`, in
/// narrow-ambiguous mode, without wrapping.
pub fn str_width_test<S: DoubleEndedIterator<Item = char>>(s: S, init: WidthInfo) -> (width:
    isize)
    requires
        s.obeys_prophetic_iter_laws(),
        s.decrease() is Some,
        3 * s.remaining().len() <= isize::MAX,
    ensures
        width as int == spec_scan(false, s.remaining(), init@).0,
{
    checked_scan::<false, S>(s, init)
}

/// The sum that a scan of the text that `s` yields adds up from the context `init`, in
/// wide-ambiguous mode, without wrapping.
pub fn str_width_test_cjk<S: DoubleEndedIterator<Item = char>>(s: S, init: WidthInfo) -> (width:
    isize)
    requires
        s.obeys_prophetic_iter_laws(),
        s.decrease() is Some,
        3 * s.remaining().len() <= isize::MAX,
    ensures
        width as int == spec_scan(true, s.remaining(), init@).0,
{
    checked_scan::<true, S>(s, init)
}

} // verus!
