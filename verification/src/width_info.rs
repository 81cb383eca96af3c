//! The trailing context register: sixteen bits that record what the scan has learned from the
//! codepoints to the right of the current position.
//!
//! A register value is a named state (the constants below), alone or below overlay flags.
//! There are two families of named states. A plain state cannot carry a flag: to set one on
//! it replaces the state by the bare flag. A ligature state (one with
//! [`LIGATURE_TRANSPARENT_MASK`] set) keeps its identity below any of the three overlay flags.
//! The only other combination is the emoji presentation flag on the two states that follow a
//! zero width joiner.
//!
//! The contracts speak of the register by its sixteen bit value, and of a flag by the
//! arithmetic of that value.
use vstd::prelude::*;

verus! {

/// No pending context.
pub const DEFAULT: u16 = 0x0000;

/// A line feed was seen.
pub const LINE_FEED: u16 = 0x0001;

/// A skin tone modifier was seen.
pub const EMOJI_MODIFIER: u16 = 0x0002;

/// One regional indicator was seen.
pub const REGIONAL_INDICATOR: u16 = 0x0003;

/// Two or more regional indicators were seen.
pub const SEVERAL_REGIONAL_INDICATOR: u16 = 0x0004;

/// An emoji with emoji presentation was seen.
pub const EMOJI_PRESENTATION: u16 = 0x0005;

/// A zero width joiner was seen in front of an emoji.
pub const ZWJ_EMOJI_PRESENTATION: u16 = 0x1006;

/// U+FE0F was seen in front of [`ZWJ_EMOJI_PRESENTATION`].
pub const VS16_ZWJ_EMOJI_PRESENTATION: u16 = 0x9006;

/// A combining enclosing keycap was seen in front of [`ZWJ_EMOJI_PRESENTATION`].
pub const KEYCAP_ZWJ_EMOJI_PRESENTATION: u16 = 0x1007;

/// U+FE0F was seen in front of [`KEYCAP_ZWJ_EMOJI_PRESENTATION`].
pub const VS16_KEYCAP_ZWJ_EMOJI_PRESENTATION: u16 = 0x9007;

/// A regional indicator was seen in front of [`ZWJ_EMOJI_PRESENTATION`].
pub const REGIONAL_INDICATOR_ZWJ_PRESENTATION: u16 = 0x0009;

/// An even number of regional indicators was seen in front of [`ZWJ_EMOJI_PRESENTATION`].
pub const EVEN_REGIONAL_INDICATOR_ZWJ_PRESENTATION: u16 = 0x000A;

/// An odd number (three or more) of regional indicators was seen in front of
/// [`ZWJ_EMOJI_PRESENTATION`].
pub const ODD_REGIONAL_INDICATOR_ZWJ_PRESENTATION: u16 = 0x000B;

/// The cancel tag U+E007F was seen in front of [`ZWJ_EMOJI_PRESENTATION`].
pub const TAG_END_ZWJ_EMOJI_PRESENTATION: u16 = 0x0010;

/// One tag digit was seen in front of the cancel tag.
pub const TAG_D1_END_ZWJ_EMOJI_PRESENTATION: u16 = 0x0011;

/// Two tag digits were seen in front of the cancel tag.
pub const TAG_D2_END_ZWJ_EMOJI_PRESENTATION: u16 = 0x0012;

/// Three tag digits were seen in front of the cancel tag.
pub const TAG_D3_END_ZWJ_EMOJI_PRESENTATION: u16 = 0x0013;

/// One tag letter was seen in front of the cancel tag.
pub const TAG_A1_END_ZWJ_EMOJI_PRESENTATION: u16 = 0x0019;

/// Two tag letters were seen in front of the cancel tag.
pub const TAG_A2_END_ZWJ_EMOJI_PRESENTATION: u16 = 0x001A;

/// Three tag letters were seen in front of the cancel tag.
pub const TAG_A3_END_ZWJ_EMOJI_PRESENTATION: u16 = 0x001B;

/// Four tag letters were seen in front of the cancel tag.
pub const TAG_A4_END_ZWJ_EMOJI_PRESENTATION: u16 = 0x001C;

/// Five tag letters were seen in front of the cancel tag.
pub const TAG_A5_END_ZWJ_EMOJI_PRESENTATION: u16 = 0x001D;

/// Six tag letters were seen in front of the cancel tag.
pub const TAG_A6_END_ZWJ_EMOJI_PRESENTATION: u16 = 0x001E;

/// Kirat Rai vowel sign E was seen.
pub const KIRAT_RAI_VOWEL_SIGN_E: u16 = 0x0020;

/// Kirat Rai vowel sign AI was seen.
pub const KIRAT_RAI_VOWEL_SIGN_AI: u16 = 0x0021;

/// Overlay flag: variation selector 1, 2 or 3 was seen.
pub const VARIATION_SELECTOR_1_2_OR_3: u16 = 0x0200;

/// Overlay flag: U+FE0E (text presentation) was seen.
pub const VARIATION_SELECTOR_15: u16 = 0x4000;

/// Overlay flag: U+FE0F (emoji presentation) was seen.
pub const VARIATION_SELECTOR_16: u16 = 0x8000;

/// An Arabic letter of joining group Alef was seen.
pub const JOINING_GROUP_ALEF: u16 = 0x30FF;

/// U+0338 was seen in front of [`JOINING_GROUP_ALEF`] (wide-ambiguous mode only).
pub const SOLIDUS_OVERLAY_ALEF: u16 = 0x38FF;

/// U+0338 was seen (wide-ambiguous mode only).
pub const COMBINING_LONG_SOLIDUS_OVERLAY: u16 = 0x3CFF;

/// Hebrew letter lamed was seen.
pub const HEBREW_LETTER_LAMED: u16 = 0x3800;

/// A zero width joiner was seen in front of [`HEBREW_LETTER_LAMED`].
pub const ZWJ_HEBREW_LETTER_LAMED: u16 = 0x3C00;

/// Buginese letter ya was seen.
pub const BUGINESE_LETTER_YA: u16 = 0x3801;

/// A zero width joiner was seen in front of [`BUGINESE_LETTER_YA`].
pub const ZWJ_BUGINESE_LETTER_YA: u16 = 0x3C01;

/// Buginese vowel sign i was seen in front of [`ZWJ_BUGINESE_LETTER_YA`].
pub const BUGINESE_VOWEL_SIGN_I_ZWJ_LETTER_YA: u16 = 0x3C02;

/// A Tifinagh consonant was seen.
pub const TIFINAGH_CONSONANT: u16 = 0x3803;

/// A zero width joiner was seen in front of [`TIFINAGH_CONSONANT`].
pub const ZWJ_TIFINAGH_CONSONANT: u16 = 0x3C03;

/// The Tifinagh consonant joiner was seen in front of a Tifinagh consonant.
pub const TIFINAGH_JOINER_CONSONANT: u16 = 0x3C04;

/// Lisu tone letter mya na jeu or its twin was seen.
pub const LISU_TONE_LETTER_MYA_NA_JEU: u16 = 0x3C05;

/// Old Turkic letter Orkhon i was seen.
pub const OLD_TURKIC_LETTER_ORKHON_I: u16 = 0x3806;

/// A zero width joiner was seen in front of [`OLD_TURKIC_LETTER_ORKHON_I`].
pub const ZWJ_OLD_TURKIC_LETTER_ORKHON_I: u16 = 0x3C06;

/// A Khmer letter that takes a coeng sign was seen.
pub const KHMER_COENG_ELIGIBLE_LETTER: u16 = 0x3C07;

/// Set on every ligature state: such a state keeps its identity below the overlay flags.
pub const LIGATURE_TRANSPARENT_MASK: u16 = 0x2000;

/// Set on the ligature states and on the states that follow a zero width joiner in an emoji
/// sequence.
pub const JOINED_BIT: u16 = 0x1000;

/// Set on the states through which ligature-transparent codepoints pass unnoticed.
pub const LIGATURE_TRANSPARENT_BIT: u16 = 0x0800;

/// Set once a zero width joiner was seen in front of a ligature state.
pub const ZWJ_BIT: u16 = 0x0400;

/// The three overlay flags together.
pub const OVERLAY_FLAGS: u16 = 0xC200;

/// Whether `bits` has the bit `flag` set, for a `flag` that is a power of two.
pub open spec fn has_flag(bits: u16, flag: u16) -> bool {
    (bits / flag) % 2 == 1
}

/// `bits` with the bit `flag` set.
pub open spec fn with_flag(bits: u16, flag: u16) -> u16 {
    if has_flag(bits, flag) {
        bits
    } else {
        (bits + flag) as u16
    }
}

/// `bits` with the bit `flag` cleared.
pub open spec fn without_flag(bits: u16, flag: u16) -> u16 {
    if has_flag(bits, flag) {
        (bits - flag) as u16
    } else {
        bits
    }
}

/// The named state of a register value: the value without its overlay flags.
pub open spec fn named_state(bits: u16) -> u16 {
    without_flag(
        without_flag(without_flag(bits, VARIATION_SELECTOR_16), VARIATION_SELECTOR_15),
        VARIATION_SELECTOR_1_2_OR_3,
    )
}

/// The ligature states: the named states that keep their identity below overlay flags.
pub open spec fn is_ligature_state(state: u16) -> bool {
    ||| state == JOINING_GROUP_ALEF
    ||| state == SOLIDUS_OVERLAY_ALEF
    ||| state == COMBINING_LONG_SOLIDUS_OVERLAY
    ||| state == HEBREW_LETTER_LAMED
    ||| state == ZWJ_HEBREW_LETTER_LAMED
    ||| state == BUGINESE_LETTER_YA
    ||| state == ZWJ_BUGINESE_LETTER_YA
    ||| state == BUGINESE_VOWEL_SIGN_I_ZWJ_LETTER_YA
    ||| state == TIFINAGH_CONSONANT
    ||| state == ZWJ_TIFINAGH_CONSONANT
    ||| state == TIFINAGH_JOINER_CONSONANT
    ||| state == LISU_TONE_LETTER_MYA_NA_JEU
    ||| state == OLD_TURKIC_LETTER_ORKHON_I
    ||| state == ZWJ_OLD_TURKIC_LETTER_ORKHON_I
    ||| state == KHMER_COENG_ELIGIBLE_LETTER
}

/// The plain states: the named states that an overlay flag replaces.
pub open spec fn is_plain_state(state: u16) -> bool {
    ||| state == DEFAULT
    ||| state == LINE_FEED
    ||| state == EMOJI_MODIFIER
    ||| state == REGIONAL_INDICATOR
    ||| state == SEVERAL_REGIONAL_INDICATOR
    ||| state == EMOJI_PRESENTATION
    ||| state == ZWJ_EMOJI_PRESENTATION
    ||| state == KEYCAP_ZWJ_EMOJI_PRESENTATION
    ||| state == REGIONAL_INDICATOR_ZWJ_PRESENTATION
    ||| state == EVEN_REGIONAL_INDICATOR_ZWJ_PRESENTATION
    ||| state == ODD_REGIONAL_INDICATOR_ZWJ_PRESENTATION
    ||| state == TAG_END_ZWJ_EMOJI_PRESENTATION
    ||| state == TAG_D1_END_ZWJ_EMOJI_PRESENTATION
    ||| state == TAG_D2_END_ZWJ_EMOJI_PRESENTATION
    ||| state == TAG_D3_END_ZWJ_EMOJI_PRESENTATION
    ||| state == TAG_A1_END_ZWJ_EMOJI_PRESENTATION
    ||| state == TAG_A2_END_ZWJ_EMOJI_PRESENTATION
    ||| state == TAG_A3_END_ZWJ_EMOJI_PRESENTATION
    ||| state == TAG_A4_END_ZWJ_EMOJI_PRESENTATION
    ||| state == TAG_A5_END_ZWJ_EMOJI_PRESENTATION
    ||| state == TAG_A6_END_ZWJ_EMOJI_PRESENTATION
    ||| state == KIRAT_RAI_VOWEL_SIGN_E
    ||| state == KIRAT_RAI_VOWEL_SIGN_AI
}

/// Whether ligature-transparent codepoints pass through this value unnoticed.
pub open spec fn ligature_transparent(bits: u16) -> bool {
    has_flag(bits, LIGATURE_TRANSPARENT_BIT)
}

/// The value after a zero width joiner was seen.
pub open spec fn with_zwj(bits: u16) -> u16 {
    with_flag(bits, ZWJ_BIT)
}

/// Whether the emoji presentation flag is set.
pub open spec fn emoji_pending(bits: u16) -> bool {
    has_flag(bits, VARIATION_SELECTOR_16)
}

/// Whether the emoji presentation flag is set on a state that follows a zero width joiner in
/// an emoji sequence.
pub open spec fn zwj_emoji_pending(bits: u16) -> bool {
    has_flag(bits, VARIATION_SELECTOR_16) && has_flag(bits, JOINED_BIT) && !has_flag(
        bits,
        LIGATURE_TRANSPARENT_MASK,
    )
}

/// Whether the value keeps its state below an overlay flag.
pub open spec fn keeps_state(bits: u16) -> bool {
    has_flag(bits, LIGATURE_TRANSPARENT_MASK)
}

/// The value after U+FE0F was seen: the flag is added where the state can carry it, and
/// replaces the state where it cannot.
pub open spec fn with_emoji(bits: u16) -> u16 {
    if keeps_state(bits) || (has_flag(bits, JOINED_BIT) && !has_flag(
        bits,
        VARIATION_SELECTOR_16,
    )) {
        with_flag(bits, VARIATION_SELECTOR_16)
    } else {
        VARIATION_SELECTOR_16
    }
}

/// The value once the emoji presentation flag has found no base: a ligature state loses the
/// flag, any other value is reset.
pub open spec fn without_emoji(bits: u16) -> u16 {
    if keeps_state(bits) {
        without_flag(bits, VARIATION_SELECTOR_16)
    } else {
        DEFAULT
    }
}

/// Whether the text presentation flag is set.
pub open spec fn text_pending(bits: u16) -> bool {
    has_flag(bits, VARIATION_SELECTOR_15)
}

/// The value after U+FE0E was seen.
pub open spec fn with_text(bits: u16) -> u16 {
    if keeps_state(bits) {
        with_flag(bits, VARIATION_SELECTOR_15)
    } else {
        VARIATION_SELECTOR_15
    }
}

/// The value without the text presentation flag.
pub open spec fn without_text(bits: u16) -> u16 {
    without_flag(bits, VARIATION_SELECTOR_15)
}

/// Whether the flag for variation selectors 1 to 3 is set.
pub open spec fn vs1_2_3_pending(bits: u16) -> bool {
    has_flag(bits, VARIATION_SELECTOR_1_2_OR_3)
}

/// The value after a variation selector 1, 2 or 3 was seen.
pub open spec fn with_vs1_2_3(bits: u16) -> u16 {
    if keeps_state(bits) {
        with_flag(bits, VARIATION_SELECTOR_1_2_OR_3)
    } else {
        VARIATION_SELECTOR_1_2_OR_3
    }
}

/// The value without the flag for variation selectors 1 to 3.
pub open spec fn without_vs1_2_3(bits: u16) -> u16 {
    without_flag(bits, VARIATION_SELECTOR_1_2_OR_3)
}

/// The register values that a scan can hold: a ligature state below any overlay flags, a plain
/// state alone, one overlay flag alone, or the emoji presentation flag on one of the two
/// states that follow a zero width joiner.
pub open spec fn valid(bits: u16) -> bool {
    let state = named_state(bits);
    let emoji = emoji_pending(bits);
    let text = text_pending(bits);
    let vs1_2_3 = vs1_2_3_pending(bits);
    ||| is_ligature_state(state)
    ||| !emoji && !text && !vs1_2_3 && is_plain_state(state)
    ||| state == DEFAULT && emoji && !text && !vs1_2_3
    ||| state == DEFAULT && !emoji && text && !vs1_2_3
    ||| state == DEFAULT && !emoji && !text && vs1_2_3
    ||| emoji && !text && !vs1_2_3 && (state == ZWJ_EMOJI_PRESENTATION || state
        == KEYCAP_ZWJ_EMOJI_PRESENTATION)
}

/// Every named state is a valid register value, and so is each overlay flag alone.
pub proof fn lemma_named_states_valid()
    ensures
        forall|state: u16| is_plain_state(state) || is_ligature_state(state) ==> valid(state),
        valid(VARIATION_SELECTOR_1_2_OR_3),
        valid(VARIATION_SELECTOR_15),
        valid(VARIATION_SELECTOR_16),
        valid(VS16_ZWJ_EMOJI_PRESENTATION),
        valid(VS16_KEYCAP_ZWJ_EMOJI_PRESENTATION),
{
}

/// The setters and clearers of the overlay flags keep a register value valid.
pub proof fn lemma_flags_keep_valid(bits: u16)
    requires
        valid(bits),
    ensures
        valid(with_emoji(bits)),
        valid(without_emoji(bits)),
        valid(with_text(bits)),
        valid(without_text(bits)),
        valid(with_vs1_2_3(bits)),
        valid(without_vs1_2_3(bits)),
        ligature_transparent(bits) ==> valid(with_zwj(bits)),
{
    assert(valid(bits) ==> valid(with_emoji(bits)) && valid(without_emoji(bits)))
        by (bit_vector);
    assert(valid(bits) ==> valid(with_text(bits)) && valid(without_text(bits))) by (bit_vector);
    assert(valid(bits) ==> valid(with_vs1_2_3(bits)) && valid(without_vs1_2_3(bits)))
        by (bit_vector);
    assert(valid(bits) && ligature_transparent(bits) ==> valid(with_zwj(bits))) by (bit_vector);
}

/// The bit operations of the register, stated over its flags.
proof fn lemma_bit_operations(bits: u16)
    ensures
        (bits & 0x8000 == 0x8000) == has_flag(bits, 0x8000),
        (bits & 0x4000 == 0x4000) == has_flag(bits, 0x4000),
        (bits & 0x2000 == 0x2000) == has_flag(bits, 0x2000),
        (bits & 0x0800 == 0x0800) == has_flag(bits, 0x0800),
        (bits & 0x0200 == 0x0200) == has_flag(bits, 0x0200),
        (bits & 0xB000 == 0x9000) == (has_flag(bits, 0x8000) && has_flag(bits, 0x1000)
            && !has_flag(bits, 0x2000)),
        (bits & 0x9000 == 0x1000) == (has_flag(bits, 0x1000) && !has_flag(bits, 0x8000)),
        bits | 0x8000 == with_flag(bits, 0x8000),
        bits | 0x4000 == with_flag(bits, 0x4000),
        bits | 0x0400 == with_flag(bits, 0x0400),
        bits | 0x0200 == with_flag(bits, 0x0200),
        bits & !0x8000u16 == without_flag(bits, 0x8000),
        bits & !0x4000u16 == without_flag(bits, 0x4000),
        bits & !0x0200u16 == without_flag(bits, 0x0200),
        bits & !0xC200u16 == named_state(bits),
{
    assert((bits & 0x8000 == 0x8000) == has_flag(bits, 0x8000)) by (bit_vector);
    assert((bits & 0x4000 == 0x4000) == has_flag(bits, 0x4000)) by (bit_vector);
    assert((bits & 0x2000 == 0x2000) == has_flag(bits, 0x2000)) by (bit_vector);
    assert((bits & 0x0800 == 0x0800) == has_flag(bits, 0x0800)) by (bit_vector);
    assert((bits & 0x0200 == 0x0200) == has_flag(bits, 0x0200)) by (bit_vector);
    assert((bits & 0xB000 == 0x9000) == (has_flag(bits, 0x8000) && has_flag(bits, 0x1000)
        && !has_flag(bits, 0x2000))) by (bit_vector);
    assert((bits & 0x9000 == 0x1000) == (has_flag(bits, 0x1000) && !has_flag(bits, 0x8000)))
        by (bit_vector);
    assert(bits | 0x8000 == with_flag(bits, 0x8000)) by (bit_vector);
    assert(bits | 0x4000 == with_flag(bits, 0x4000)) by (bit_vector);
    assert(bits | 0x0400 == with_flag(bits, 0x0400)) by (bit_vector);
    assert(bits | 0x0200 == with_flag(bits, 0x0200)) by (bit_vector);
    assert(bits & !0x8000u16 == without_flag(bits, 0x8000)) by (bit_vector);
    assert(bits & !0x4000u16 == without_flag(bits, 0x4000)) by (bit_vector);
    assert(bits & !0x0200u16 == without_flag(bits, 0x0200)) by (bit_vector);
    assert(bits & !0xC200u16 == named_state(bits)) by (bit_vector);
}

/// The trailing context register.
#[derive(Clone, Copy, Debug, PartialEq, Eq)]
pub struct WidthInfo(u16);

impl View for WidthInfo {
    type V = u16;

    closed spec fn view(&self) -> u16 {
        self.0
    }
}

impl WidthInfo {
    /// Whether the register holds a value that a scan can reach.
    pub open spec fn wf(self) -> bool {
        valid(self@)
    }

    /// The register for a named state or flag combination.
    pub(crate) fn new(bits: u16) -> (info: Self)
        ensures
            info@ == bits,
    {
        WidthInfo(bits)
    }

    /// The register with no pending context, from which every scan starts.
    pub fn initial() -> (info: Self)
        ensures
            info@ == DEFAULT,
            info.wf(),
    {
        proof {
            lemma_named_states_valid();
        }
        WidthInfo(DEFAULT)
    }

    /// The register that holds `bits`, if a scan can reach that value.
    pub fn from_bits(bits: u16) -> (info: Option<Self>)
        ensures
            info is Some <==> valid(bits),
            info is Some ==> info->0@ == bits,
    {
        proof {
            lemma_bit_operations(bits);
        }
        let state = bits & !OVERLAY_FLAGS;
        let emoji = (bits & VARIATION_SELECTOR_16) == VARIATION_SELECTOR_16;
        let text = (bits & VARIATION_SELECTOR_15) == VARIATION_SELECTOR_15;
        let vs1_2_3 = (bits & VARIATION_SELECTOR_1_2_OR_3) == VARIATION_SELECTOR_1_2_OR_3;
        let ligature = state == JOINING_GROUP_ALEF || state == SOLIDUS_OVERLAY_ALEF || state
            == COMBINING_LONG_SOLIDUS_OVERLAY || state == HEBREW_LETTER_LAMED || (
        ZWJ_HEBREW_LETTER_LAMED <= state && state <= KHMER_COENG_ELIGIBLE_LETTER) || state
            == BUGINESE_LETTER_YA || state == TIFINAGH_CONSONANT || state
            == OLD_TURKIC_LETTER_ORKHON_I;
        let plain = state <= EMOJI_PRESENTATION || state == ZWJ_EMOJI_PRESENTATION || state
            == KEYCAP_ZWJ_EMOJI_PRESENTATION || (REGIONAL_INDICATOR_ZWJ_PRESENTATION <= state
            && state <= ODD_REGIONAL_INDICATOR_ZWJ_PRESENTATION) || (TAG_END_ZWJ_EMOJI_PRESENTATION
            <= state && state <= TAG_D3_END_ZWJ_EMOJI_PRESENTATION) || (
        TAG_A1_END_ZWJ_EMOJI_PRESENTATION <= state && state <= TAG_A6_END_ZWJ_EMOJI_PRESENTATION)
            || state == KIRAT_RAI_VOWEL_SIGN_E || state == KIRAT_RAI_VOWEL_SIGN_AI;
        let no_flag = !emoji && !text && !vs1_2_3;
        let lone_flag = state == DEFAULT && ((emoji && !text && !vs1_2_3) || (!emoji && text
            && !vs1_2_3) || (!emoji && !text && vs1_2_3));
        let joined = emoji && !text && !vs1_2_3 && (state == ZWJ_EMOJI_PRESENTATION || state
            == KEYCAP_ZWJ_EMOJI_PRESENTATION);
        if ligature || (no_flag && plain) || lone_flag || joined {
            Some(WidthInfo(bits))
        } else {
            None
        }
    }

    /// The sixteen bits of the register.
    pub fn bits(self) -> (bits: u16)
        ensures
            bits == self@,
    {
        self.0
    }

    /// Whether ligature-transparent codepoints pass through this register unnoticed.
    pub fn is_ligature_transparent(self) -> (yes: bool)
        ensures
            yes == ligature_transparent(self@),
    {
        proof {
            lemma_bit_operations(self@);
        }
        (self.0 & LIGATURE_TRANSPARENT_BIT) == LIGATURE_TRANSPARENT_BIT
    }

    /// Records a zero width joiner.
    pub fn set_zwj_bit(self) -> (info: Self)
        ensures
            info@ == with_zwj(self@),
            self.wf() && ligature_transparent(self@) ==> info.wf(),
    {
        proof {
            lemma_bit_operations(self@);
            if self.wf() {
                lemma_flags_keep_valid(self@);
            }
        }
        WidthInfo(self.0 | ZWJ_BIT)
    }

    /// Whether the emoji presentation flag is set.
    pub fn is_emoji_presentation(self) -> (yes: bool)
        ensures
            yes == emoji_pending(self@),
    {
        proof {
            lemma_bit_operations(self@);
        }
        (self.0 & VARIATION_SELECTOR_16) == VARIATION_SELECTOR_16
    }

    /// Whether the emoji presentation flag is set on a state that follows a zero width joiner.
    pub fn is_zwj_emoji_presentation(self) -> (yes: bool)
        ensures
            yes == zwj_emoji_pending(self@),
    {
        proof {
            lemma_bit_operations(self@);
        }
        (self.0 & 0xB000) == 0x9000
    }

    /// Records U+FE0F.
    pub fn set_emoji_presentation(self) -> (info: Self)
        ensures
            info@ == with_emoji(self@),
            self.wf() ==> info.wf(),
    {
        proof {
            lemma_bit_operations(self@);
            if self.wf() {
                lemma_flags_keep_valid(self@);
            }
        }
        if (self.0 & LIGATURE_TRANSPARENT_MASK) == LIGATURE_TRANSPARENT_MASK || (self.0 & 0x9000)
            == 0x1000 {
            WidthInfo(self.0 | VARIATION_SELECTOR_16)
        } else {
            WidthInfo(VARIATION_SELECTOR_16)
        }
    }

    /// Drops the emoji presentation flag after it found no base.
    pub fn unset_emoji_presentation(self) -> (info: Self)
        ensures
            info@ == without_emoji(self@),
            self.wf() ==> info.wf(),
    {
        proof {
            lemma_bit_operations(self@);
            if self.wf() {
                lemma_flags_keep_valid(self@);
            }
        }
        if (self.0 & LIGATURE_TRANSPARENT_MASK) == LIGATURE_TRANSPARENT_MASK {
            WidthInfo(self.0 & !VARIATION_SELECTOR_16)
        } else {
            WidthInfo(DEFAULT)
        }
    }

    /// Whether the text presentation flag is set.
    pub fn is_text_presentation(self) -> (yes: bool)
        ensures
            yes == text_pending(self@),
    {
        proof {
            lemma_bit_operations(self@);
        }
        (self.0 & VARIATION_SELECTOR_15) == VARIATION_SELECTOR_15
    }

    /// Records U+FE0E.
    pub fn set_text_presentation(self) -> (info: Self)
        ensures
            info@ == with_text(self@),
            self.wf() ==> info.wf(),
    {
        proof {
            lemma_bit_operations(self@);
            if self.wf() {
                lemma_flags_keep_valid(self@);
            }
        }
        if (self.0 & LIGATURE_TRANSPARENT_MASK) == LIGATURE_TRANSPARENT_MASK {
            WidthInfo(self.0 | VARIATION_SELECTOR_15)
        } else {
            WidthInfo(VARIATION_SELECTOR_15)
        }
    }

    /// Drops the text presentation flag.
    pub fn unset_text_presentation(self) -> (info: Self)
        ensures
            info@ == without_text(self@),
            self.wf() ==> info.wf(),
    {
        proof {
            lemma_bit_operations(self@);
            if self.wf() {
                lemma_flags_keep_valid(self@);
            }
        }
        WidthInfo(self.0 & !VARIATION_SELECTOR_15)
    }

    /// Whether the flag for variation selectors 1 to 3 is set.
    pub fn is_vs1_2_3(self) -> (yes: bool)
        ensures
            yes == vs1_2_3_pending(self@),
    {
        proof {
            lemma_bit_operations(self@);
        }
        (self.0 & VARIATION_SELECTOR_1_2_OR_3) == VARIATION_SELECTOR_1_2_OR_3
    }

    /// Records a variation selector 1, 2 or 3.
    pub fn set_vs1_2_3(self) -> (info: Self)
        ensures
            info@ == with_vs1_2_3(self@),
            self.wf() ==> info.wf(),
    {
        proof {
            lemma_bit_operations(self@);
            if self.wf() {
                lemma_flags_keep_valid(self@);
            }
        }
        if (self.0 & LIGATURE_TRANSPARENT_MASK) == LIGATURE_TRANSPARENT_MASK {
            WidthInfo(self.0 | VARIATION_SELECTOR_1_2_OR_3)
        } else {
            WidthInfo(VARIATION_SELECTOR_1_2_OR_3)
        }
    }

    /// Drops the flag for variation selectors 1 to 3.
    pub fn unset_vs1_2_3(self) -> (info: Self)
        ensures
            info@ == without_vs1_2_3(self@),
            self.wf() ==> info.wf(),
    {
        proof {
            lemma_bit_operations(self@);
            if self.wf() {
                lemma_flags_keep_valid(self@);
            }
        }
        WidthInfo(self.0 & !VARIATION_SELECTOR_1_2_OR_3)
    }
}

} // verus!
