//! Soundness of the transition rules: the register stays valid, and no step takes back more
//! than the steps before it have added.
use crate::lookup::{spec_lookup_width, spec_table_width};
use crate::rules::{
    rule_arabic, rule_emoji_modifier, rule_emoji_presentation, rule_ligature_transparent,
    rule_quotation_mark, rule_regional_indicator, rule_script_ligature, rule_struck_relation,
    rule_text_presentation, rule_variation_selector, rule_zwj_emoji, settle_emoji, settle_text,
    settle_vs1_2_3, spec_scan, spec_str_width, spec_width_in, spec_width_in_context,
    spec_width_in_sequence,
};
use crate::width_info::{
    is_ligature_state, is_plain_state, lemma_flags_keep_valid, ligature_transparent,
    named_state, valid, with_emoji, with_text, with_vs1_2_3, with_zwj, without_emoji,
    without_text, without_vs1_2_3, DEFAULT, EMOJI_PRESENTATION, KHMER_COENG_ELIGIBLE_LETTER,
    LINE_FEED, ODD_REGIONAL_INDICATOR_ZWJ_PRESENTATION, REGIONAL_INDICATOR_ZWJ_PRESENTATION,
    TIFINAGH_JOINER_CONSONANT, VARIATION_SELECTOR_15, VARIATION_SELECTOR_16,
    VARIATION_SELECTOR_1_2_OR_3,
};
use vstd::prelude::*;

verus! {

/// Whether the context may still take one cell back: the states in front of which a
/// codepoint can add minus one.
pub open spec fn owes(ctx: u16) -> bool {
    let state = named_state(ctx);
    ||| state == KHMER_COENG_ELIGIBLE_LETTER
    ||| state == TIFINAGH_JOINER_CONSONANT
    ||| state == REGIONAL_INDICATOR_ZWJ_PRESENTATION
    ||| state == ODD_REGIONAL_INDICATOR_ZWJ_PRESENTATION
}

/// The number of cells that the context may still take back.
pub open spec fn owed(ctx: u16) -> int {
    if owes(ctx) {
        1
    } else {
        0
    }
}

/// A step is sound in a context if it leaves a valid register, adds between minus one and
/// three cells, and takes back no more than the context allowed.
pub open spec fn sound_step(ctx: u16, step: (int, u16)) -> bool {
    &&& valid(step.1)
    &&& -1 <= step.0 <= 3
    &&& step.0 + owed(ctx) >= owed(step.1)
}

/// A rule is sound in a context if the step that it takes, if any, is.
pub open spec fn sound_rule(ctx: u16, rule: Option<(int, u16)>) -> bool {
    match rule {
        Some(step) => sound_step(ctx, step),
        None => true,
    }
}

/// Setting or clearing an overlay flag never makes a context owe a cell.
pub proof fn lemma_flags_keep_owed(ctx: u16)
    requires
        valid(ctx),
    ensures
        owes(with_emoji(ctx)) ==> owes(ctx),
        owes(without_emoji(ctx)) ==> owes(ctx),
        owes(with_text(ctx)) ==> owes(ctx),
        owes(without_text(ctx)) ==> owes(ctx),
        owes(with_vs1_2_3(ctx)) ==> owes(ctx),
        owes(without_vs1_2_3(ctx)) ==> owes(ctx),
        ligature_transparent(ctx) && owes(with_zwj(ctx)) ==> owes(ctx),
{
    assert(valid(ctx) ==> (owes(with_emoji(ctx)) ==> owes(ctx)) && (owes(without_emoji(ctx))
        ==> owes(ctx))) by (bit_vector);
    assert(valid(ctx) ==> (owes(with_text(ctx)) ==> owes(ctx)) && (owes(without_text(ctx))
        ==> owes(ctx))) by (bit_vector);
    assert(valid(ctx) ==> (owes(with_vs1_2_3(ctx)) ==> owes(ctx)) && (owes(without_vs1_2_3(ctx))
        ==> owes(ctx))) by (bit_vector);
    assert(valid(ctx) && ligature_transparent(ctx) && owes(with_zwj(ctx)) ==> owes(ctx))
        by (bit_vector);
}

/// The classifier gives a width of at most two and a named state or a lone overlay flag, and
/// a state that owes a cell only together with a width of at least one.
pub proof fn lemma_lookup_sound(c: char, cjk: bool, ctx: u16)
    ensures
        spec_lookup_width(c, cjk).0 <= 2,
        is_plain_state(spec_lookup_width(c, cjk).1) || is_ligature_state(
            spec_lookup_width(c, cjk).1,
        ) || spec_lookup_width(c, cjk).1 == VARIATION_SELECTOR_15 || spec_lookup_width(c, cjk).1
            == VARIATION_SELECTOR_16 || spec_lookup_width(c, cjk).1
            == VARIATION_SELECTOR_1_2_OR_3,
        sound_step(ctx, (spec_lookup_width(c, cjk).0 as int, spec_lookup_width(c, cjk).1)),
{
    reveal(spec_table_width);
}

proof fn lemma_rule_ligature_transparent_sound(c: char, ctx: u16)
    requires
        valid(ctx),
    ensures
        sound_rule(ctx, rule_ligature_transparent(c, ctx)),
{
    lemma_flags_keep_valid(ctx);
    lemma_flags_keep_owed(ctx);
}

proof fn lemma_rule_arabic_sound(cjk: bool, c: char, ctx: u16)
    ensures
        sound_rule(ctx, rule_arabic(cjk, c, ctx)),
{
    lemma_lookup_sound(c, cjk, ctx);
}

proof fn lemma_rule_script_ligature_sound(c: char, ctx: u16)
    ensures
        sound_rule(ctx, rule_script_ligature(c, ctx)),
{
}

proof fn lemma_rule_zwj_emoji_sound(cjk: bool, c: char, ctx: u16)
    ensures
        sound_rule(ctx, rule_zwj_emoji(cjk, c, ctx)),
{
}

/// From a valid register every step in front of a sequence in progress is sound.
pub proof fn lemma_sequence_rules_sound(cjk: bool, c: char, ctx: u16)
    requires
        valid(ctx),
    ensures
        sound_step(ctx, spec_width_in_sequence(cjk, c, ctx)),
{
    lemma_rule_ligature_transparent_sound(c, ctx);
    lemma_rule_arabic_sound(cjk, c, ctx);
    lemma_rule_script_ligature_sound(c, ctx);
    lemma_rule_zwj_emoji_sound(cjk, c, ctx);
    lemma_lookup_sound(c, cjk, ctx);
    assert(sound_rule(ctx, rule_emoji_modifier(c, ctx)));
    assert(sound_rule(ctx, rule_regional_indicator(c, ctx)));
}

/// A step that is sound in a context is sound in any context that owes at least as much.
proof fn lemma_sound_step_weakens(before: u16, ctx: u16, step: (int, u16))
    requires
        sound_step(ctx, step),
        owes(ctx) ==> owes(before),
    ensures
        sound_step(before, step),
{
}

/// A step that adds no less than nothing and resets the context is sound.
proof fn lemma_reset_sound(ctx: u16, add: int)
    requires
        0 <= add <= 3,
    ensures
        sound_step(ctx, (add, DEFAULT)),
{
}

/// From a valid register every step in front of a pending context is sound.
pub proof fn lemma_context_rules_sound(cjk: bool, c: char, ctx: u16)
    requires
        valid(ctx),
    ensures
        sound_step(ctx, spec_width_in_context(cjk, c, ctx)),
{
    lemma_flags_keep_valid(ctx);
    lemma_flags_keep_owed(ctx);
    let text_settled = settle_text(cjk, ctx);
    let settled = settle_vs1_2_3(text_settled);
    if rule_variation_selector(cjk, c, ctx) is Some {
    } else if rule_text_presentation(cjk, c, ctx) is Some {
        lemma_reset_sound(ctx, 1);
    } else if rule_quotation_mark(cjk, c, text_settled) is Some {
        lemma_reset_sound(ctx, 1);
        lemma_reset_sound(ctx, 2);
    } else {
        assert(valid(text_settled) && (owes(text_settled) ==> owes(ctx)));
        lemma_flags_keep_valid(text_settled);
        lemma_flags_keep_owed(text_settled);
        assert(valid(settled) && (owes(settled) ==> owes(ctx)));
        lemma_sequence_rules_sound(cjk, c, settled);
        lemma_sound_step_weakens(ctx, settled, spec_width_in_sequence(cjk, c, settled));
    }
}

/// Every step of the scan is sound: from a valid register it leaves a valid register, adds
/// between minus one and three cells, and adds minus one only where the context owed a cell.
pub proof fn lemma_step_sound(cjk: bool, c: char, ctx: u16)
    requires
        valid(ctx),
    ensures
        sound_step(ctx, spec_width_in(cjk, c, ctx)),
{
    lemma_flags_keep_valid(ctx);
    lemma_flags_keep_owed(ctx);
    let settled = settle_emoji(ctx);
    if rule_emoji_presentation(c, ctx) is Some {
        assert(sound_step(ctx, (0int, EMOJI_PRESENTATION)) && sound_step(
            ctx,
            (2int, EMOJI_PRESENTATION),
        ));
    } else if rule_struck_relation(cjk, c, settled) is Some {
        lemma_reset_sound(ctx, 2);
    } else if c <= '\u{A0}' {
        lemma_reset_sound(ctx, 0);
        lemma_reset_sound(ctx, 1);
        assert(sound_step(ctx, (1int, LINE_FEED)));
    } else if settled == DEFAULT {
        lemma_lookup_sound(c, cjk, ctx);
    } else {
        assert(valid(settled) && (owes(settled) ==> owes(ctx)));
        lemma_context_rules_sound(cjk, c, settled);
        lemma_sound_step_weakens(ctx, settled, spec_width_in_context(cjk, c, settled));
    }
}

/// A scan from a valid register ends in a valid register, and its sum never falls below
/// what its last context owes, less what its first context owed.
pub proof fn lemma_scan_sound(cjk: bool, text: Seq<char>, init: u16)
    requires
        valid(init),
    ensures
        valid(spec_scan(cjk, text, init).1),
        spec_scan(cjk, text, init).0 + owed(init) >= owed(spec_scan(cjk, text, init).1),
    decreases text.len(),
{
    if text.len() > 0 {
        let step = spec_width_in(cjk, text.last(), init);
        lemma_step_sound(cjk, text.last(), init);
        lemma_scan_sound(cjk, text.drop_last(), step.1);
    }
}

proof fn lemma_sequence_range(cjk: bool, c: char, ctx: u16)
    ensures
        -1 <= spec_width_in_sequence(cjk, c, ctx).0 <= 3,
{
    lemma_lookup_sound(c, cjk, ctx);
}

/// Every step adds between minus one and three cells, whatever the register holds.
pub proof fn lemma_step_range(cjk: bool, c: char, ctx: u16)
    ensures
        -1 <= spec_width_in(cjk, c, ctx).0 <= 3,
{
    lemma_lookup_sound(c, cjk, ctx);
    lemma_sequence_range(cjk, c, settle_vs1_2_3(settle_text(cjk, settle_emoji(ctx))));
}

/// A scan adds at most three cells for each codepoint and takes back at most one, whatever
/// the register held at first.
pub proof fn lemma_scan_range(cjk: bool, text: Seq<char>, init: u16)
    ensures
        -text.len() <= spec_scan(cjk, text, init).0 <= 3 * text.len(),
    decreases text.len(),
{
    if text.len() > 0 {
        lemma_step_range(cjk, text.last(), init);
        lemma_scan_range(cjk, text.drop_last(), spec_width_in(cjk, text.last(), init).1);
    }
}

/// The displayed width of a text is never negative, and at most three cells for each
/// codepoint.
pub proof fn lemma_str_width_bounds(text: Seq<char>, cjk: bool)
    ensures
        0 <= spec_str_width(text, cjk) <= 3 * text.len(),
{
    lemma_scan_sound(cjk, text, DEFAULT);
    lemma_scan_range(cjk, text, DEFAULT);
}

} // verus!
