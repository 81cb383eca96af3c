//! Laws of the single codepoint query and of text without sequences.
use crate::lookup::{is_control, spec_lookup_width, spec_single_char_width};
use crate::rules::{spec_str_width, spec_width_in};
use crate::soundness::lemma_lookup_sound;
use crate::width_info::DEFAULT;
use vstd::prelude::*;

verus! {

/// The sum of the widths that the classifier gives the codepoints of `text`, each taken alone.
pub open spec fn spec_naive_width(text: Seq<char>, cjk: bool) -> int
    decreases text.len(),
{
    if text.len() == 0 {
        0
    } else {
        spec_lookup_width(text.last(), cjk).0 + spec_naive_width(text.drop_last(), cjk)
    }
}

/// Whether no codepoint of `text` starts a context, so that `text` holds no sequence that
/// the rules read as one.
pub open spec fn starts_no_sequence(text: Seq<char>, cjk: bool) -> bool {
    forall|i: int| 0 <= i < text.len() ==> spec_lookup_width(#[trigger] text[i], cjk).1 == DEFAULT
}

/// From no pending context a codepoint that starts no context adds the width that the
/// classifier gives it, and leaves no context.
pub proof fn lemma_plain_step(c: char, cjk: bool)
    requires
        spec_lookup_width(c, cjk).1 == DEFAULT,
    ensures
        spec_width_in(cjk, c, DEFAULT) == (spec_lookup_width(c, cjk).0 as int, DEFAULT),
{
}

/// The displayed width of a text in which no codepoint starts a context is the sum of the
/// widths of its codepoints.
pub proof fn lemma_plain_text_width(text: Seq<char>, cjk: bool)
    requires
        starts_no_sequence(text, cjk),
    ensures
        spec_str_width(text, cjk) == spec_naive_width(text, cjk),
    decreases text.len(),
{
    if text.len() > 0 {
        let c = text.last();
        assert(c == text[text.len() - 1]);
        lemma_plain_step(c, cjk);
        let front = text.drop_last();
        assert forall|i: int| 0 <= i < front.len() implies spec_lookup_width(
            #[trigger] front[i],
            cjk,
        ).1 == DEFAULT by {
            assert(front[i] == text[i]);
        }
        lemma_plain_text_width(front, cjk);
    }
}

/// The single codepoint query answers `None` on the control codes and on nothing else. On any
/// other codepoint it answers a width of at most two cells, and of one or two cells unless
/// the classifier gives the codepoint no width.
pub proof fn lemma_single_char_width_total(c: char, cjk: bool)
    ensures
        spec_single_char_width(c, cjk) is None <==> is_control(c),
        spec_single_char_width(c, cjk) is Some ==> spec_single_char_width(c, cjk)->0 <= 2,
        !is_control(c) && spec_lookup_width(c, cjk).0 != 0 ==> (spec_single_char_width(c, cjk)
            == Some(1usize) || spec_single_char_width(c, cjk) == Some(2usize)),
{
    lemma_lookup_sound(c, cjk, DEFAULT);
}

} // verus!
