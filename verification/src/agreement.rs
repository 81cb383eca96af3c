//! Agreement of the two modes: they differ only where the classifier does.
use crate::lookup::{spec_lookup_width, spec_table_width};
use crate::props::covers;
use crate::rules::{
    rule_arabic, rule_emoji_modifier, rule_ligature_transparent, rule_quotation_mark,
    rule_regional_indicator, rule_script_ligature, rule_struck_relation, rule_text_presentation,
    rule_variation_selector, rule_zwj_emoji, settle_emoji, settle_text, settle_vs1_2_3,
    spec_scan, spec_str_width, spec_width_in, spec_width_in_context, spec_width_in_sequence,
};
use crate::soundness::lemma_lookup_sound;
use crate::tables::AMBIGUOUS;
use crate::width_info::{
    named_state, text_pending, vs1_2_3_pending, with_emoji, with_zwj, without_emoji,
    COMBINING_LONG_SOLIDUS_OVERLAY, DEFAULT, SOLIDUS_OVERLAY_ALEF, VARIATION_SELECTOR_15,
    VARIATION_SELECTOR_1_2_OR_3,
};
use vstd::prelude::*;

verus! {

/// Whether the classifier gives `c` the same width and state in both modes.
pub open spec fn is_unambiguous(c: char) -> bool {
    spec_lookup_width(c, false) == spec_lookup_width(c, true)
}

/// The classifier tells the modes apart only on the codepoints of the table of ambiguous
/// widths, on U+0338 and on the variation selectors 1, 2, 3 and 15.
pub proof fn lemma_unambiguous_codepoints(c: char)
    requires
        !covers(AMBIGUOUS@, c as u32),
        c != '\u{0338}',
        c != '\u{FE00}',
        c != '\u{FE01}',
        c != '\u{FE02}',
        c != '\u{FE0E}',
    ensures
        is_unambiguous(c),
{
    reveal(spec_table_width);
}

/// The contexts on which the rules of the two modes agree: no text presentation selector and
/// no variation selector 1 to 3 is pending, and U+0338 is not followed.
pub open spec fn mode_neutral(ctx: u16) -> bool {
    &&& !text_pending(ctx)
    &&& !vs1_2_3_pending(ctx)
    &&& named_state(ctx) != COMBINING_LONG_SOLIDUS_OVERLAY
    &&& named_state(ctx) != SOLIDUS_OVERLAY_ALEF
}

proof fn lemma_neutral_kept(ctx: u16)
    requires
        mode_neutral(ctx),
    ensures
        mode_neutral(with_emoji(ctx)),
        mode_neutral(without_emoji(ctx)),
        mode_neutral(with_zwj(ctx)),
        ctx != COMBINING_LONG_SOLIDUS_OVERLAY,
        ctx != SOLIDUS_OVERLAY_ALEF,
{
    assert(mode_neutral(ctx) ==> mode_neutral(with_emoji(ctx)) && mode_neutral(
        without_emoji(ctx),
    ) && mode_neutral(with_zwj(ctx)) && ctx != 0x3CFF && ctx != 0x38FF) by (bit_vector);
}

/// Whether the step that a rule takes, if any, leaves a mode-neutral context.
pub open spec fn neutral_rule(rule: Option<(int, u16)>) -> bool {
    match rule {
        Some(step) => mode_neutral(step.1),
        None => true,
    }
}

proof fn lemma_unambiguous_lookup(c: char)
    requires
        is_unambiguous(c),
    ensures
        c != '\u{0338}',
        c != '\u{FE00}',
        c != '\u{FE01}',
        c != '\u{FE02}',
        c != '\u{FE0E}',
        mode_neutral(spec_lookup_width(c, false).1),
{
    lemma_lookup_sound(c, false, DEFAULT);
    lemma_lookup_sound(c, true, DEFAULT);
    assert(spec_lookup_width('\u{0338}', true).1 == COMBINING_LONG_SOLIDUS_OVERLAY);
    assert(spec_lookup_width('\u{0338}', false).1 != COMBINING_LONG_SOLIDUS_OVERLAY);
    assert(spec_lookup_width('\u{FE00}', true).1 == VARIATION_SELECTOR_1_2_OR_3);
    assert(spec_lookup_width('\u{FE00}', false).1 != VARIATION_SELECTOR_1_2_OR_3);
    assert(spec_lookup_width('\u{FE02}', true).1 == VARIATION_SELECTOR_1_2_OR_3);
    assert(spec_lookup_width('\u{FE02}', false).1 != VARIATION_SELECTOR_1_2_OR_3);
    assert(spec_lookup_width('\u{FE01}', false).1 == VARIATION_SELECTOR_1_2_OR_3);
    assert(spec_lookup_width('\u{FE01}', true).1 != VARIATION_SELECTOR_1_2_OR_3);
    assert(spec_lookup_width('\u{FE0E}', false).1 == VARIATION_SELECTOR_15);
    assert(spec_lookup_width('\u{FE0E}', true).1 != VARIATION_SELECTOR_15);
}

proof fn lemma_sequence_rules_neutral(c: char, ctx: u16)
    requires
        is_unambiguous(c),
        mode_neutral(ctx),
    ensures
        neutral_rule(rule_ligature_transparent(c, ctx)),
        neutral_rule(rule_arabic(false, c, ctx)),
        rule_arabic(false, c, ctx) == rule_arabic(true, c, ctx),
        neutral_rule(rule_script_ligature(c, ctx)),
        neutral_rule(rule_emoji_modifier(c, ctx)),
        neutral_rule(rule_regional_indicator(c, ctx)),
        neutral_rule(rule_zwj_emoji(false, c, ctx)),
        rule_zwj_emoji(false, c, ctx) == rule_zwj_emoji(true, c, ctx),
{
    lemma_neutral_kept(ctx);
    lemma_unambiguous_lookup(c);
    assert(neutral_rule(rule_ligature_transparent(c, ctx)));
    assert(neutral_rule(rule_arabic(false, c, ctx)));
    assert(neutral_rule(rule_script_ligature(c, ctx)));
    assert(neutral_rule(rule_zwj_emoji(false, c, ctx)));
}

proof fn lemma_sequence_modes_agree(c: char, ctx: u16)
    requires
        is_unambiguous(c),
        mode_neutral(ctx),
    ensures
        spec_width_in_sequence(false, c, ctx) == spec_width_in_sequence(true, c, ctx),
        mode_neutral(spec_width_in_sequence(false, c, ctx).1),
{
    lemma_sequence_rules_neutral(c, ctx);
    lemma_unambiguous_lookup(c);
}

proof fn lemma_context_modes_agree(c: char, ctx: u16)
    requires
        is_unambiguous(c),
        mode_neutral(ctx),
    ensures
        spec_width_in_context(false, c, ctx) == spec_width_in_context(true, c, ctx),
        mode_neutral(spec_width_in_context(false, c, ctx).1),
{
    lemma_neutral_kept(ctx);
    lemma_unambiguous_lookup(c);
    lemma_sequence_modes_agree(c, ctx);
    assert(settle_text(false, ctx) == ctx);
    assert(settle_text(true, ctx) == ctx);
    assert(settle_vs1_2_3(ctx) == ctx);
    assert(rule_variation_selector(false, c, ctx) == rule_variation_selector(true, c, ctx));
    assert(rule_text_presentation(false, c, ctx) is None);
    assert(rule_quotation_mark(false, c, ctx) is None);
}

/// In front of a mode-neutral context an unambiguous codepoint takes the same step in both
/// modes, and leaves a mode-neutral context.
pub proof fn lemma_step_modes_agree(c: char, ctx: u16)
    requires
        is_unambiguous(c),
        mode_neutral(ctx),
    ensures
        spec_width_in(false, c, ctx) == spec_width_in(true, c, ctx),
        mode_neutral(spec_width_in(false, c, ctx).1),
{
    lemma_neutral_kept(ctx);
    lemma_unambiguous_lookup(c);
    let settled = settle_emoji(ctx);
    lemma_neutral_kept(settled);
    lemma_context_modes_agree(c, settled);
    assert(rule_struck_relation(true, c, settled) is None);
}

/// The scans of the two modes agree on a text of unambiguous codepoints, from any mode-neutral
/// context.
pub proof fn lemma_scan_modes_agree(text: Seq<char>, init: u16)
    requires
        forall|i: int| 0 <= i < text.len() ==> is_unambiguous(#[trigger] text[i]),
        mode_neutral(init),
    ensures
        spec_scan(false, text, init) == spec_scan(true, text, init),
    decreases text.len(),
{
    if text.len() > 0 {
        let c = text.last();
        assert(c == text[text.len() - 1]);
        lemma_step_modes_agree(c, init);
        let front = text.drop_last();
        assert forall|i: int| 0 <= i < front.len() implies is_unambiguous(
            #[trigger] front[i],
        ) by {
            assert(front[i] == text[i]);
        }
        lemma_scan_modes_agree(front, spec_width_in(false, c, init).1);
    }
}

/// The two modes give the same displayed width to a text of unambiguous codepoints.
pub proof fn lemma_modes_agree(text: Seq<char>)
    requires
        forall|i: int| 0 <= i < text.len() ==> is_unambiguous(#[trigger] text[i]),
    ensures
        spec_str_width(text, false) == spec_str_width(text, true),
{
    lemma_scan_modes_agree(text, DEFAULT);
}

} // verus!
