//! Membership of a codepoint in the property sets that the transition rules ask about.
use crate::lookup::{lookup_width, spec_lookup_width};
use crate::tables::{
    lemma_emoji_modifier_bases_is_table, lemma_emoji_presentation_bases_is_table,
    lemma_non_transparent_zero_widths_is_table, lemma_solidus_transparent_is_table,
    lemma_text_presentation_bases_is_table, EMOJI_MODIFIER_BASES, EMOJI_PRESENTATION_BASES,
    NON_TRANSPARENT_ZERO_WIDTHS, SOLIDUS_TRANSPARENT, TEXT_PRESENTATION_BASES,
};
use vstd::prelude::*;

verus! {

/// A list of closed codepoint ranges in ascending order, no two of which overlap.
pub open spec fn is_interval_table(table: Seq<(u32, u32)>) -> bool {
    &&& forall|i: int|
        0 <= i < table.len() ==> (#[trigger] table[i]).0 <= table[i].1 && table[i].1 <= 0x10FFFF
    &&& forall|i: int| 0 <= i < table.len() - 1 ==> (#[trigger] table[i]).1 < table[i + 1].0
}

/// Whether one of the ranges of `table` holds `cp`.
pub open spec fn covers(table: Seq<(u32, u32)>, cp: u32) -> bool {
    exists|i: int| 0 <= i < table.len() && (#[trigger] table[i]).0 <= cp && cp <= table[i].1
}

/// In an interval table every range ends before any later range begins.
pub proof fn lemma_intervals_ascend(table: Seq<(u32, u32)>, i: int, j: int)
    requires
        is_interval_table(table),
        0 <= i < j < table.len(),
    ensures
        table[i].1 < table[j].0,
    decreases j - i,
{
    if i + 1 < j {
        lemma_intervals_ascend(table, i, j - 1);
        assert(table[j - 1].0 <= table[j - 1].1);
        assert(table[j - 1].1 < table[j - 1 + 1].0);
    } else {
        assert(table[i].1 < table[i + 1].0);
    }
}

/// Binary search for the range of `table` that holds `cp`.
pub fn table_contains<const N: usize>(table: &[(u32, u32); N], cp: u32) -> (found: bool)
    requires
        is_interval_table(table@),
    ensures
        found == covers(table@, cp),
{
    let mut low: usize = 0;
    let mut high: usize = N;
    while low < high
        invariant
            low <= high <= N,
            N == table@.len(),
            is_interval_table(table@),
            forall|i: int| 0 <= i < low ==> (#[trigger] table@[i]).1 < cp,
            forall|i: int| high <= i < N ==> cp < (#[trigger] table@[i]).0,
        decreases high - low,
    {
        let mid = low + (high - low) / 2;
        let (first, last) = table[mid];
        if cp < first {
            assert forall|i: int| mid <= i < N implies cp < (#[trigger] table@[i]).0 by {
                if mid < i {
                    lemma_intervals_ascend(table@, mid as int, i);
                }
            }
            high = mid;
        } else if cp > last {
            assert forall|i: int| 0 <= i < mid + 1 implies (#[trigger] table@[i]).1 < cp by {
                if i < mid {
                    lemma_intervals_ascend(table@, i, mid as int);
                }
            }
            low = mid + 1;
        } else {
            assert(table@[mid as int].0 <= cp && cp <= table@[mid as int].1);
            return true;
        }
    }
    false
}

/// The Arabic letters of joining group Alef.
pub open spec fn is_joining_group_alef(c: char) -> bool {
    ||| '\u{0622}' <= c <= '\u{0623}'
    ||| c == '\u{0625}'
    ||| c == '\u{0627}'
    ||| '\u{0671}' <= c <= '\u{0673}'
    ||| c == '\u{0675}'
    ||| '\u{0773}' <= c <= '\u{0774}'
    ||| '\u{0870}' <= c <= '\u{0882}'
}

/// The Tifinagh consonants that join into a bi-consonant.
pub open spec fn is_tifinagh_consonant(c: char) -> bool {
    '\u{2D31}' <= c <= '\u{2D65}' || c == '\u{2D6F}'
}

/// The regional indicator symbols.
pub open spec fn is_regional_indicator(c: char) -> bool {
    '\u{1F1E6}' <= c <= '\u{1F1FF}'
}

/// The skin tone modifiers.
pub open spec fn is_skin_tone_modifier(c: char) -> bool {
    '\u{1F3FB}' <= c <= '\u{1F3FF}'
}

/// The tag forms of the lower case letters.
pub open spec fn is_tag_letter(c: char) -> bool {
    '\u{E0061}' <= c <= '\u{E007A}'
}

/// The tag forms of the digits.
pub open spec fn is_tag_digit(c: char) -> bool {
    '\u{E0030}' <= c <= '\u{E0039}'
}

/// The four curly quotation marks.
pub open spec fn is_curly_quotation_mark(c: char) -> bool {
    c == '\u{2018}' || c == '\u{2019}' || c == '\u{201C}' || c == '\u{201D}'
}

/// The default ignorable combining marks and the zero width joiner: codepoints that do not
/// interrupt a ligature outside Arabic.
pub open spec fn spec_is_ligature_transparent(c: char) -> bool {
    ||| c == '\u{034F}'
    ||| '\u{17B4}' <= c <= '\u{17B5}'
    ||| '\u{180B}' <= c <= '\u{180D}'
    ||| c == '\u{180F}'
    ||| c == '\u{200D}'
    ||| '\u{FE00}' <= c <= '\u{FE0F}'
    ||| '\u{E0100}' <= c <= '\u{E01EF}'
}

/// Whether `c` does not interrupt a ligature outside Arabic.
pub fn is_ligature_transparent(c: char) -> (yes: bool)
    ensures
        yes == spec_is_ligature_transparent(c),
{
    c == '\u{034F}' || ('\u{17B4}' <= c && c <= '\u{17B5}') || ('\u{180B}' <= c && c
        <= '\u{180D}') || c == '\u{180F}' || c == '\u{200D}' || ('\u{FE00}' <= c && c
        <= '\u{FE0F}') || ('\u{E0100}' <= c && c <= '\u{E01EF}')
}

/// The Arabic letters of joining group Lam.
pub open spec fn spec_is_joining_group_lam(c: char) -> bool {
    ||| c == '\u{0644}'
    ||| '\u{06B5}' <= c <= '\u{06B8}'
    ||| c == '\u{076A}'
    ||| c == '\u{08A6}'
    ||| c == '\u{08C7}'
}

/// Whether `c` is an Arabic letter of joining group Lam.
pub fn is_joining_group_lam(c: char) -> (yes: bool)
    ensures
        yes == spec_is_joining_group_lam(c),
{
    c == '\u{0644}' || ('\u{06B5}' <= c && c <= '\u{06B8}') || c == '\u{076A}' || c
        == '\u{08A6}' || c == '\u{08C7}'
}

/// The codepoints that form an emoji presentation sequence with a following U+FE0F.
///
/// Opaque, to keep the tables out of proofs that do not read them: reveal it where one does.
#[verifier::opaque]
pub open spec fn spec_starts_emoji_presentation_seq(c: char) -> bool {
    covers(EMOJI_PRESENTATION_BASES@, c as u32)
}

/// Whether `c` forms an emoji presentation sequence with a following U+FE0F.
pub fn starts_emoji_presentation_seq(c: char) -> (yes: bool)
    ensures
        yes == spec_starts_emoji_presentation_seq(c),
{
    proof {
        reveal(spec_starts_emoji_presentation_seq);
        lemma_emoji_presentation_bases_is_table();
    }
    table_contains(&EMOJI_PRESENTATION_BASES, c as u32)
}

/// The codepoints that are drawn as emoji by default, are not ideographic, and form a text
/// presentation sequence with a following U+FE0E.
///
/// Opaque, to keep the tables out of proofs that do not read them: reveal it where one does.
#[verifier::opaque]
pub open spec fn spec_starts_non_ideographic_text_presentation_seq(c: char) -> bool {
    covers(TEXT_PRESENTATION_BASES@, c as u32)
}

/// Whether `c` is drawn as emoji by default, is not ideographic, and forms a text presentation
/// sequence with a following U+FE0E.
pub fn starts_non_ideographic_text_presentation_seq(c: char) -> (yes: bool)
    ensures
        yes == spec_starts_non_ideographic_text_presentation_seq(c),
{
    proof {
        reveal(spec_starts_non_ideographic_text_presentation_seq);
        lemma_text_presentation_bases_is_table();
    }
    table_contains(&TEXT_PRESENTATION_BASES, c as u32)
}

/// The codepoints that a following skin tone modifier changes.
///
/// Opaque, to keep the tables out of proofs that do not read them: reveal it where one does.
#[verifier::opaque]
pub open spec fn spec_is_emoji_modifier_base(c: char) -> bool {
    covers(EMOJI_MODIFIER_BASES@, c as u32)
}

/// Whether a following skin tone modifier changes `c`.
pub fn is_emoji_modifier_base(c: char) -> (yes: bool)
    ensures
        yes == spec_is_emoji_modifier_base(c),
{
    proof {
        reveal(spec_is_emoji_modifier_base);
        lemma_emoji_modifier_bases_is_table();
    }
    table_contains(&EMOJI_MODIFIER_BASES, c as u32)
}

/// The codepoints of no width with joining type transparent: they do not interrupt an Arabic
/// ligature.
///
/// Opaque, to keep the tables out of proofs that do not read them: reveal it where one does.
#[verifier::opaque]
pub open spec fn spec_is_transparent_zero_width(c: char) -> bool {
    spec_lookup_width(c, false).0 == 0 && !covers(NON_TRANSPARENT_ZERO_WIDTHS@, c as u32)
}

/// Whether `c` has no width and joining type transparent.
pub fn is_transparent_zero_width(c: char) -> (yes: bool)
    ensures
        yes == spec_is_transparent_zero_width(c),
{
    proof {
        reveal(spec_is_transparent_zero_width);
        lemma_non_transparent_zero_widths_is_table();
    }
    if lookup_width(c).0 != 0 {
        false
    } else {
        !table_contains(&NON_TRANSPARENT_ZERO_WIDTHS, c as u32)
    }
}

/// The codepoints that may stand between U+0338 and the base that it strikes through.
///
/// Opaque, to keep the tables out of proofs that do not read them: reveal it where one does.
#[verifier::opaque]
pub open spec fn spec_is_solidus_transparent(c: char) -> bool {
    spec_is_ligature_transparent(c) || covers(SOLIDUS_TRANSPARENT@, c as u32)
}

/// Whether `c` may stand between U+0338 COMBINING LONG SOLIDUS OVERLAY and the base that it
/// strikes through.
pub fn is_solidus_transparent(c: char) -> (yes: bool)
    ensures
        yes == spec_is_solidus_transparent(c),
{
    proof {
        reveal(spec_is_solidus_transparent);
        lemma_solidus_transparent_is_table();
    }
    is_ligature_transparent(c) || table_contains(&SOLIDUS_TRANSPARENT, c as u32)
}

} // verus!
