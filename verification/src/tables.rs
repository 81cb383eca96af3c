//! The property tables. Each is a list of closed codepoint ranges in ascending order, no two
//! of which overlap. Every bound is a codepoint, so that it would fit in three bytes.
//!
//! The widths follow the East Asian Width property, and a codepoint with a canonical
//! decomposition has the width of its decomposition.
use crate::props::is_interval_table;
use vstd::prelude::*;

verus! {

/// Codepoints that occupy no cell: combining marks, default ignorable codepoints,
/// and the vowels and trailing consonants of conjoining Hangul.
pub const ZERO_WIDTH: [(u32, u32); 364] = [
    (0x0300, 0x036F), (0x0483, 0x0489), (0x0591, 0x05BD), (0x05BF, 0x05BF), (0x05C1, 0x05C2),
    (0x05C4, 0x05C5), (0x05C7, 0x05C7), (0x0605, 0x0605), (0x0610, 0x061A), (0x061C, 0x061C),
    (0x064B, 0x065F), (0x0670, 0x0670), (0x06D6, 0x06DC), (0x06DF, 0x06E4), (0x06E7, 0x06E8),
    (0x06EA, 0x06ED), (0x070F, 0x070F), (0x0711, 0x0711), (0x0730, 0x074A), (0x07A6, 0x07B0),
    (0x07EB, 0x07F3), (0x07FD, 0x07FD), (0x0816, 0x0819), (0x081B, 0x0823), (0x0825, 0x0827),
    (0x0829, 0x082D), (0x0859, 0x085B), (0x0890, 0x0891), (0x0898, 0x089F), (0x08CA, 0x0902),
    (0x093A, 0x093A), (0x093C, 0x093C), (0x0941, 0x0948), (0x094D, 0x094D), (0x0951, 0x0957),
    (0x0962, 0x0963), (0x0981, 0x0981), (0x09BC, 0x09BC), (0x09BE, 0x09BE), (0x09C1, 0x09C4),
    (0x09CD, 0x09CD), (0x09D7, 0x09D7), (0x09E2, 0x09E3), (0x09FE, 0x09FE), (0x0A01, 0x0A02),
    (0x0A3C, 0x0A3C), (0x0A41, 0x0A42), (0x0A47, 0x0A48), (0x0A4B, 0x0A4D), (0x0A51, 0x0A51),
    (0x0A70, 0x0A71), (0x0A75, 0x0A75), (0x0A81, 0x0A82), (0x0ABC, 0x0ABC), (0x0AC1, 0x0AC5),
    (0x0AC7, 0x0AC8), (0x0ACD, 0x0ACD), (0x0AE2, 0x0AE3), (0x0AFA, 0x0AFF), (0x0B01, 0x0B01),
    (0x0B3C, 0x0B3C), (0x0B3E, 0x0B3F), (0x0B41, 0x0B44), (0x0B4D, 0x0B4D), (0x0B55, 0x0B57),
    (0x0B62, 0x0B63), (0x0B82, 0x0B82), (0x0BBE, 0x0BBE), (0x0BC0, 0x0BC0), (0x0BCD, 0x0BCD),
    (0x0BD7, 0x0BD7), (0x0C00, 0x0C00), (0x0C04, 0x0C04), (0x0C3C, 0x0C3C), (0x0C3E, 0x0C40),
    (0x0C46, 0x0C48), (0x0C4A, 0x0C4D), (0x0C55, 0x0C56), (0x0C62, 0x0C63), (0x0C81, 0x0C81),
    (0x0CBC, 0x0CBC), (0x0CBF, 0x0CC0), (0x0CC2, 0x0CC2), (0x0CC6, 0x0CC8), (0x0CCA, 0x0CCD),
    (0x0CD5, 0x0CD6), (0x0CE2, 0x0CE3), (0x0D00, 0x0D01), (0x0D3B, 0x0D3C), (0x0D3E, 0x0D3E),
    (0x0D41, 0x0D44), (0x0D4D, 0x0D4E), (0x0D57, 0x0D57), (0x0D62, 0x0D63), (0x0D81, 0x0D81),
    (0x0DCA, 0x0DCA), (0x0DCF, 0x0DCF), (0x0DD2, 0x0DD4), (0x0DD6, 0x0DD6), (0x0DDF, 0x0DDF),
    (0x0E31, 0x0E31), (0x0E34, 0x0E3A), (0x0E47, 0x0E4E), (0x0EB1, 0x0EB1), (0x0EB4, 0x0EBC),
    (0x0EC8, 0x0ECD), (0x0F18, 0x0F19), (0x0F35, 0x0F35), (0x0F37, 0x0F37), (0x0F39, 0x0F39),
    (0x0F71, 0x0F7E), (0x0F80, 0x0F84), (0x0F86, 0x0F87), (0x0F8D, 0x0F97), (0x0F99, 0x0FBC),
    (0x0FC6, 0x0FC6), (0x102D, 0x1030), (0x1032, 0x1037), (0x1039, 0x103A), (0x103D, 0x103E),
    (0x1058, 0x1059), (0x105E, 0x1060), (0x1071, 0x1074), (0x1082, 0x1082), (0x1085, 0x1086),
    (0x108D, 0x108D), (0x109D, 0x109D), (0x1160, 0x11FF), (0x135D, 0x135F), (0x1712, 0x1714),
    (0x1732, 0x1733), (0x1752, 0x1753), (0x1772, 0x1773), (0x17B4, 0x17B5), (0x17B7, 0x17BD),
    (0x17C6, 0x17C6), (0x17C9, 0x17D3), (0x17DD, 0x17DD), (0x180B, 0x180F), (0x1885, 0x1886),
    (0x18A9, 0x18A9), (0x1920, 0x1922), (0x1927, 0x1928), (0x1932, 0x1932), (0x1939, 0x193B),
    (0x1A17, 0x1A18), (0x1A1B, 0x1A1B), (0x1A56, 0x1A56), (0x1A58, 0x1A5E), (0x1A60, 0x1A60),
    (0x1A62, 0x1A62), (0x1A65, 0x1A6C), (0x1A73, 0x1A7C), (0x1A7F, 0x1A7F), (0x1AB0, 0x1ACE),
    (0x1B00, 0x1B03), (0x1B34, 0x1B3D), (0x1B42, 0x1B43), (0x1B6B, 0x1B73), (0x1B80, 0x1B81),
    (0x1BA2, 0x1BA5), (0x1BA8, 0x1BA9), (0x1BAB, 0x1BAD), (0x1BE6, 0x1BE6), (0x1BE8, 0x1BE9),
    (0x1BED, 0x1BED), (0x1BEF, 0x1BF1), (0x1C2C, 0x1C33), (0x1C36, 0x1C37), (0x1CD0, 0x1CD2),
    (0x1CD4, 0x1CE0), (0x1CE2, 0x1CE8), (0x1CED, 0x1CED), (0x1CF4, 0x1CF4), (0x1CF8, 0x1CF9),
    (0x1DC0, 0x1DFF), (0x200B, 0x200F), (0x202A, 0x202E), (0x2060, 0x206F), (0x20D0, 0x20F0),
    (0x2CEF, 0x2CF1), (0x2DE0, 0x2DFF), (0x302A, 0x302F), (0x3099, 0x309A), (0x3164, 0x3164),
    (0xA66F, 0xA672), (0xA674, 0xA67D), (0xA69E, 0xA69F), (0xA6F0, 0xA6F1), (0xA802, 0xA802),
    (0xA806, 0xA806), (0xA80B, 0xA80B), (0xA825, 0xA826), (0xA82C, 0xA82C), (0xA8C4, 0xA8C5),
    (0xA8E0, 0xA8F1), (0xA8FA, 0xA8FA), (0xA8FF, 0xA8FF), (0xA926, 0xA92D), (0xA947, 0xA951),
    (0xA980, 0xA982), (0xA9B3, 0xA9B3), (0xA9B6, 0xA9B9), (0xA9BC, 0xA9BD), (0xA9E5, 0xA9E5),
    (0xAA29, 0xAA2E), (0xAA31, 0xAA32), (0xAA35, 0xAA36), (0xAA43, 0xAA43), (0xAA4C, 0xAA4C),
    (0xAA7C, 0xAA7C), (0xAAB0, 0xAAB0), (0xAAB2, 0xAAB4), (0xAAB7, 0xAAB8), (0xAABE, 0xAABF),
    (0xAAC1, 0xAAC1), (0xAAEC, 0xAAED), (0xAAF6, 0xAAF6), (0xABE5, 0xABE5), (0xABE8, 0xABE8),
    (0xABED, 0xABED), (0xD7B0, 0xD7C6), (0xD7CB, 0xD7FB), (0xFB1E, 0xFB1E), (0xFE00, 0xFE0F),
    (0xFE20, 0xFE2F), (0xFEFF, 0xFEFF), (0xFF9E, 0xFFA0), (0xFFF0, 0xFFF8), (0x101FD, 0x101FD),
    (0x102E0, 0x102E0), (0x10376, 0x1037A), (0x10A01, 0x10A03), (0x10A05, 0x10A06),
    (0x10A0C, 0x10A0F), (0x10A38, 0x10A3A), (0x10A3F, 0x10A3F), (0x10AE5, 0x10AE6),
    (0x10D24, 0x10D27), (0x10EAB, 0x10EAC), (0x10F46, 0x10F50), (0x10F82, 0x10F85),
    (0x11001, 0x11001), (0x11038, 0x11046), (0x11070, 0x11070), (0x11073, 0x11074),
    (0x1107F, 0x11081), (0x110B3, 0x110B6), (0x110B9, 0x110BA), (0x110BD, 0x110BD),
    (0x110C2, 0x110C2), (0x110CD, 0x110CD), (0x11100, 0x11102), (0x11127, 0x1112B),
    (0x1112D, 0x11134), (0x11173, 0x11173), (0x11180, 0x11181), (0x111B6, 0x111BE),
    (0x111C2, 0x111C3), (0x111C9, 0x111CC), (0x111CF, 0x111CF), (0x1122F, 0x11231),
    (0x11234, 0x11234), (0x11236, 0x11237), (0x1123E, 0x1123E), (0x112DF, 0x112DF),
    (0x112E3, 0x112EA), (0x11300, 0x11301), (0x1133B, 0x1133C), (0x1133E, 0x1133E),
    (0x11340, 0x11340), (0x11357, 0x11357), (0x11366, 0x1136C), (0x11370, 0x11374),
    (0x11438, 0x1143F), (0x11442, 0x11444), (0x11446, 0x11446), (0x1145E, 0x1145E),
    (0x114B0, 0x114B0), (0x114B3, 0x114B8), (0x114BA, 0x114BA), (0x114BD, 0x114BD),
    (0x114BF, 0x114C0), (0x114C2, 0x114C3), (0x115AF, 0x115AF), (0x115B2, 0x115B5),
    (0x115BC, 0x115BD), (0x115BF, 0x115C0), (0x115DC, 0x115DD), (0x11633, 0x1163A),
    (0x1163D, 0x1163D), (0x1163F, 0x11640), (0x116AB, 0x116AB), (0x116AD, 0x116AD),
    (0x116B0, 0x116B5), (0x116B7, 0x116B7), (0x1171D, 0x1171F), (0x11722, 0x11725),
    (0x11727, 0x1172B), (0x1182F, 0x11837), (0x11839, 0x1183A), (0x11930, 0x11930),
    (0x1193B, 0x1193C), (0x1193E, 0x1193F), (0x11941, 0x11941), (0x11943, 0x11943),
    (0x119D4, 0x119D7), (0x119DA, 0x119DB), (0x119E0, 0x119E0), (0x11A01, 0x11A0A),
    (0x11A33, 0x11A38), (0x11A3A, 0x11A3E), (0x11A47, 0x11A47), (0x11A51, 0x11A56),
    (0x11A59, 0x11A5B), (0x11A84, 0x11A96), (0x11A98, 0x11A99), (0x11C30, 0x11C36),
    (0x11C38, 0x11C3D), (0x11C3F, 0x11C3F), (0x11C92, 0x11CA7), (0x11CAA, 0x11CB0),
    (0x11CB2, 0x11CB3), (0x11CB5, 0x11CB6), (0x11D31, 0x11D36), (0x11D3A, 0x11D3A),
    (0x11D3C, 0x11D3D), (0x11D3F, 0x11D47), (0x11D90, 0x11D91), (0x11D95, 0x11D95),
    (0x11D97, 0x11D97), (0x11EF3, 0x11EF4), (0x16AF0, 0x16AF4), (0x16B30, 0x16B36),
    (0x16F4F, 0x16F4F), (0x16F8F, 0x16F92), (0x16FE4, 0x16FE4), (0x1BC9D, 0x1BC9E),
    (0x1BCA0, 0x1BCA3), (0x1CF00, 0x1CF2D), (0x1CF30, 0x1CF46), (0x1D165, 0x1D165),
    (0x1D167, 0x1D169), (0x1D16E, 0x1D182), (0x1D185, 0x1D18B), (0x1D1AA, 0x1D1AD),
    (0x1D242, 0x1D244), (0x1DA00, 0x1DA36), (0x1DA3B, 0x1DA6C), (0x1DA75, 0x1DA75),
    (0x1DA84, 0x1DA84), (0x1DA9B, 0x1DA9F), (0x1DAA1, 0x1DAAF), (0x1E000, 0x1E006),
    (0x1E008, 0x1E018), (0x1E01B, 0x1E021), (0x1E023, 0x1E024), (0x1E026, 0x1E02A),
    (0x1E130, 0x1E136), (0x1E2AE, 0x1E2AE), (0x1E2EC, 0x1E2EF), (0x1E8D0, 0x1E8D6),
    (0x1E944, 0x1E94A), (0xE0000, 0xE0FFF),
];

/// Codepoints that occupy two cells in both modes.
pub const WIDE: [(u32, u32); 123] = [
    (0x1100, 0x115F), (0x231A, 0x231B), (0x2329, 0x232A), (0x23E9, 0x23EC), (0x23F0, 0x23F0),
    (0x23F3, 0x23F3), (0x25FD, 0x25FE), (0x2614, 0x2615), (0x2648, 0x2653), (0x267F, 0x267F),
    (0x2693, 0x2693), (0x26A1, 0x26A1), (0x26AA, 0x26AB), (0x26BD, 0x26BE), (0x26C4, 0x26C5),
    (0x26CE, 0x26CE), (0x26D4, 0x26D4), (0x26EA, 0x26EA), (0x26F2, 0x26F3), (0x26F5, 0x26F5),
    (0x26FA, 0x26FA), (0x26FD, 0x26FD), (0x2705, 0x2705), (0x270A, 0x270B), (0x2728, 0x2728),
    (0x274C, 0x274C), (0x274E, 0x274E), (0x2753, 0x2755), (0x2757, 0x2757), (0x2795, 0x2797),
    (0x27B0, 0x27B0), (0x27BF, 0x27BF), (0x2B1B, 0x2B1C), (0x2B50, 0x2B50), (0x2B55, 0x2B55),
    (0x2E80, 0x2E99), (0x2E9B, 0x2EF3), (0x2F00, 0x2FD5), (0x2FF0, 0x2FFB), (0x3000, 0x3029),
    (0x3030, 0x303E), (0x3041, 0x3096), (0x309B, 0x30FF), (0x3105, 0x312F), (0x3131, 0x3163),
    (0x3165, 0x318E), (0x3190, 0x31E3), (0x31F0, 0x321E), (0x3220, 0x3247), (0x3250, 0x4DBF),
    (0x4E00, 0xA48C), (0xA490, 0xA4C6), (0xA960, 0xA97C), (0xAC00, 0xD7A3), (0xF900, 0xFAFF),
    (0xFE10, 0xFE19), (0xFE30, 0xFE52), (0xFE54, 0xFE66), (0xFE68, 0xFE6B), (0xFF01, 0xFF60),
    (0xFFE0, 0xFFE6), (0x16FE0, 0x16FE3), (0x16FF0, 0x16FF1), (0x17000, 0x187F7),
    (0x18800, 0x18CD5), (0x18D00, 0x18D08), (0x1AFF0, 0x1AFF3), (0x1AFF5, 0x1AFFB),
    (0x1AFFD, 0x1AFFE), (0x1B000, 0x1B122), (0x1B150, 0x1B152), (0x1B164, 0x1B167),
    (0x1B170, 0x1B2FB), (0x1F004, 0x1F004), (0x1F0CF, 0x1F0CF), (0x1F18E, 0x1F18E),
    (0x1F191, 0x1F19A), (0x1F200, 0x1F202), (0x1F210, 0x1F23B), (0x1F240, 0x1F248),
    (0x1F250, 0x1F251), (0x1F260, 0x1F265), (0x1F300, 0x1F320), (0x1F32D, 0x1F335),
    (0x1F337, 0x1F37C), (0x1F37E, 0x1F393), (0x1F3A0, 0x1F3CA), (0x1F3CF, 0x1F3D3),
    (0x1F3E0, 0x1F3F0), (0x1F3F4, 0x1F3F4), (0x1F3F8, 0x1F43E), (0x1F440, 0x1F440),
    (0x1F442, 0x1F4FC), (0x1F4FF, 0x1F53D), (0x1F54B, 0x1F54E), (0x1F550, 0x1F567),
    (0x1F57A, 0x1F57A), (0x1F595, 0x1F596), (0x1F5A4, 0x1F5A4), (0x1F5FB, 0x1F64F),
    (0x1F680, 0x1F6C5), (0x1F6CC, 0x1F6CC), (0x1F6D0, 0x1F6D2), (0x1F6D5, 0x1F6D7),
    (0x1F6DD, 0x1F6DF), (0x1F6EB, 0x1F6EC), (0x1F6F4, 0x1F6FC), (0x1F7E0, 0x1F7EB),
    (0x1F7F0, 0x1F7F0), (0x1F90C, 0x1F93A), (0x1F93C, 0x1F945), (0x1F947, 0x1F9FF),
    (0x1FA70, 0x1FA74), (0x1FA78, 0x1FA7C), (0x1FA80, 0x1FA86), (0x1FA90, 0x1FAAC),
    (0x1FAB0, 0x1FABA), (0x1FAC0, 0x1FAC5), (0x1FAD0, 0x1FAD9), (0x1FAE0, 0x1FAE7),
    (0x1FAF0, 0x1FAF6), (0x20000, 0x2FFFD), (0x30000, 0x3FFFD),
];

/// Codepoints that occupy one cell in narrow-ambiguous mode and two cells in
/// wide-ambiguous mode.
pub const AMBIGUOUS: [(u32, u32); 188] = [
    (0x00A1, 0x00A1), (0x00A4, 0x00A4), (0x00A7, 0x00A8), (0x00AA, 0x00AA), (0x00AE, 0x00AE),
    (0x00B0, 0x00B4), (0x00B6, 0x00BA), (0x00BC, 0x00BF), (0x00C6, 0x00C6), (0x00D0, 0x00D0),
    (0x00D7, 0x00D8), (0x00DE, 0x00DF), (0x00E6, 0x00E6), (0x00F0, 0x00F0), (0x00F7, 0x00F8),
    (0x00FE, 0x00FE), (0x0111, 0x0111), (0x0126, 0x0127), (0x0131, 0x0133), (0x0138, 0x0138),
    (0x013F, 0x0142), (0x0149, 0x014B), (0x0152, 0x0153), (0x0166, 0x0167), (0x01E2, 0x01E3),
    (0x01FC, 0x01FF), (0x0251, 0x0251), (0x0261, 0x0261), (0x02C4, 0x02C4), (0x02C7, 0x02C7),
    (0x02C9, 0x02CB), (0x02CD, 0x02CD), (0x02D0, 0x02D0), (0x02D8, 0x02DB), (0x02DD, 0x02DD),
    (0x02DF, 0x02DF), (0x0385, 0x038A), (0x038C, 0x038C), (0x038E, 0x03A1), (0x03A3, 0x03C1),
    (0x03C3, 0x03CE), (0x0400, 0x0401), (0x0403, 0x0403), (0x040C, 0x040E), (0x0410, 0x0451),
    (0x0453, 0x0453), (0x045C, 0x045E), (0x04C1, 0x04C2), (0x04D0, 0x04D3), (0x04D6, 0x04D7),
    (0x04DC, 0x04DF), (0x04E2, 0x04E7), (0x04EC, 0x04F5), (0x04F8, 0x04F9), (0x1F00, 0x1F15),
    (0x1F18, 0x1F1D), (0x1F20, 0x1F45), (0x1F48, 0x1F4D), (0x1F50, 0x1F57), (0x1F59, 0x1F59),
    (0x1F5B, 0x1F5B), (0x1F5D, 0x1F5D), (0x1F5F, 0x1F7D), (0x1F80, 0x1FB4), (0x1FB6, 0x1FBC),
    (0x1FBE, 0x1FBE), (0x1FC1, 0x1FC4), (0x1FC6, 0x1FCC), (0x1FD0, 0x1FD3), (0x1FD6, 0x1FDB),
    (0x1FE0, 0x1FEE), (0x1FF2, 0x1FF4), (0x1FF6, 0x1FFD), (0x2010, 0x2010), (0x2013, 0x2016),
    (0x2018, 0x2019), (0x201C, 0x201D), (0x2020, 0x2022), (0x2024, 0x2027), (0x2030, 0x2030),
    (0x2032, 0x2033), (0x2035, 0x2035), (0x203B, 0x203B), (0x203E, 0x203E), (0x2074, 0x2074),
    (0x207F, 0x207F), (0x2081, 0x2084), (0x20AC, 0x20AC), (0x2103, 0x2103), (0x2105, 0x2105),
    (0x2109, 0x2109), (0x2113, 0x2113), (0x2116, 0x2116), (0x2121, 0x2122), (0x2126, 0x2126),
    (0x2153, 0x2154), (0x215B, 0x215E), (0x2160, 0x216B), (0x2170, 0x2179), (0x2189, 0x2189),
    (0x2190, 0x219B), (0x21AE, 0x21AE), (0x21B8, 0x21B9), (0x21CE, 0x21CF), (0x21D2, 0x21D2),
    (0x21D4, 0x21D4), (0x21E7, 0x21E7), (0x2200, 0x2200), (0x2202, 0x2204), (0x2207, 0x2209),
    (0x220B, 0x220C), (0x220F, 0x220F), (0x2211, 0x2211), (0x2215, 0x2215), (0x221A, 0x221A),
    (0x221D, 0x2220), (0x2223, 0x222C), (0x222E, 0x222E), (0x2234, 0x2237), (0x223C, 0x223D),
    (0x2241, 0x2241), (0x2248, 0x2249), (0x224C, 0x224C), (0x2252, 0x2252), (0x2260, 0x2262),
    (0x2264, 0x2267), (0x226A, 0x226B), (0x226E, 0x2271), (0x2282, 0x2289), (0x2295, 0x2295),
    (0x2299, 0x2299), (0x22A5, 0x22A5), (0x22BF, 0x22BF), (0x2312, 0x2312), (0x2460, 0x24E9),
    (0x24EB, 0x254B), (0x2550, 0x2573), (0x2580, 0x258F), (0x2592, 0x2595), (0x25A0, 0x25A1),
    (0x25A3, 0x25A9), (0x25B2, 0x25B3), (0x25B6, 0x25B7), (0x25BC, 0x25BD), (0x25C0, 0x25C1),
    (0x25C6, 0x25C8), (0x25CB, 0x25CB), (0x25CE, 0x25D1), (0x25E2, 0x25E5), (0x25EF, 0x25EF),
    (0x2605, 0x2606), (0x2609, 0x2609), (0x260E, 0x260F), (0x261C, 0x261C), (0x261E, 0x261E),
    (0x2640, 0x2640), (0x2642, 0x2642), (0x2660, 0x2661), (0x2663, 0x2665), (0x2667, 0x266A),
    (0x266C, 0x266D), (0x266F, 0x266F), (0x269E, 0x269F), (0x26BF, 0x26BF), (0x26C6, 0x26CD),
    (0x26CF, 0x26D3), (0x26D5, 0x26E1), (0x26E3, 0x26E3), (0x26E8, 0x26E9), (0x26EB, 0x26F1),
    (0x26F4, 0x26F4), (0x26F6, 0x26F9), (0x26FB, 0x26FC), (0x26FE, 0x26FF), (0x273D, 0x273D),
    (0x2776, 0x277F), (0x2B56, 0x2B59), (0x3248, 0x324F), (0xE000, 0xF8FF), (0xFFFD, 0xFFFD),
    (0x1F100, 0x1F10A), (0x1F110, 0x1F12D), (0x1F130, 0x1F169), (0x1F170, 0x1F18D),
    (0x1F18F, 0x1F190), (0x1F19B, 0x1F1AC), (0xF0000, 0xFFFFD), (0x100000, 0x10FFFD),
];

/// Codepoints that are drawn as emoji by default, regional indicators left out.
pub const EMOJI_PRESENTATION: [(u32, u32); 82] = [
    (0x231A, 0x231B), (0x23E9, 0x23EC), (0x23F0, 0x23F0), (0x23F3, 0x23F3), (0x25FD, 0x25FE),
    (0x2614, 0x2615), (0x2648, 0x2653), (0x267F, 0x267F), (0x2693, 0x2693), (0x26A1, 0x26A1),
    (0x26AA, 0x26AB), (0x26BD, 0x26BE), (0x26C4, 0x26C5), (0x26CE, 0x26CE), (0x26D4, 0x26D4),
    (0x26EA, 0x26EA), (0x26F2, 0x26F3), (0x26F5, 0x26F5), (0x26FA, 0x26FA), (0x26FD, 0x26FD),
    (0x2705, 0x2705), (0x270A, 0x270B), (0x2728, 0x2728), (0x274C, 0x274C), (0x274E, 0x274E),
    (0x2753, 0x2755), (0x2757, 0x2757), (0x2795, 0x2797), (0x27B0, 0x27B0), (0x27BF, 0x27BF),
    (0x2B1B, 0x2B1C), (0x2B50, 0x2B50), (0x2B55, 0x2B55), (0x1F004, 0x1F004), (0x1F0CF, 0x1F0CF),
    (0x1F18E, 0x1F18E), (0x1F191, 0x1F19A), (0x1F201, 0x1F201), (0x1F21A, 0x1F21A),
    (0x1F22F, 0x1F22F), (0x1F232, 0x1F236), (0x1F238, 0x1F23A), (0x1F250, 0x1F251),
    (0x1F300, 0x1F320), (0x1F32D, 0x1F335), (0x1F337, 0x1F37C), (0x1F37E, 0x1F393),
    (0x1F3A0, 0x1F3CA), (0x1F3CF, 0x1F3D3), (0x1F3E0, 0x1F3F0), (0x1F3F4, 0x1F3F4),
    (0x1F3F8, 0x1F43E), (0x1F440, 0x1F440), (0x1F442, 0x1F4FC), (0x1F4FF, 0x1F53D),
    (0x1F54B, 0x1F54E), (0x1F550, 0x1F567), (0x1F57A, 0x1F57A), (0x1F595, 0x1F596),
    (0x1F5A4, 0x1F5A4), (0x1F5FB, 0x1F64F), (0x1F680, 0x1F6C5), (0x1F6CC, 0x1F6CC),
    (0x1F6D0, 0x1F6D2), (0x1F6D5, 0x1F6D7), (0x1F6DD, 0x1F6DF), (0x1F6EB, 0x1F6EC),
    (0x1F6F4, 0x1F6FC), (0x1F7E0, 0x1F7EB), (0x1F7F0, 0x1F7F0), (0x1F90C, 0x1F93A),
    (0x1F93C, 0x1F945), (0x1F947, 0x1F9FF), (0x1FA70, 0x1FA74), (0x1FA78, 0x1FA7C),
    (0x1FA80, 0x1FA86), (0x1FA90, 0x1FAAC), (0x1FAB0, 0x1FABA), (0x1FAC0, 0x1FAC5),
    (0x1FAD0, 0x1FAD9), (0x1FAE0, 0x1FAE7), (0x1FAF0, 0x1FAF6),
];

/// Codepoints that form an emoji presentation sequence with a following U+FE0F.
pub const EMOJI_PRESENTATION_BASES: [(u32, u32); 179] = [
    (0x0023, 0x0023), (0x002A, 0x002A), (0x0030, 0x0039), (0x00A9, 0x00A9), (0x00AE, 0x00AE),
    (0x203C, 0x203C), (0x2049, 0x2049), (0x2122, 0x2122), (0x2139, 0x2139), (0x2194, 0x2199),
    (0x21A9, 0x21AA), (0x231A, 0x231B), (0x2328, 0x2328), (0x23CF, 0x23CF), (0x23E9, 0x23EA),
    (0x23ED, 0x23EF), (0x23F1, 0x23F3), (0x23F8, 0x23FA), (0x24C2, 0x24C2), (0x25AA, 0x25AB),
    (0x25B6, 0x25B6), (0x25C0, 0x25C0), (0x25FB, 0x25FE), (0x2600, 0x2604), (0x260E, 0x260E),
    (0x2611, 0x2611), (0x2614, 0x2615), (0x2618, 0x2618), (0x261D, 0x261D), (0x2620, 0x2620),
    (0x2622, 0x2623), (0x2626, 0x2626), (0x262A, 0x262A), (0x262E, 0x262F), (0x2638, 0x263A),
    (0x2640, 0x2640), (0x2642, 0x2642), (0x2648, 0x2653), (0x265F, 0x2660), (0x2663, 0x2663),
    (0x2665, 0x2666), (0x2668, 0x2668), (0x267B, 0x267B), (0x267E, 0x267F), (0x2692, 0x2697),
    (0x2699, 0x2699), (0x269B, 0x269C), (0x26A0, 0x26A1), (0x26A7, 0x26A7), (0x26AA, 0x26AB),
    (0x26B0, 0x26B1), (0x26BD, 0x26BE), (0x26C4, 0x26C5), (0x26C8, 0x26C8), (0x26CF, 0x26CF),
    (0x26D1, 0x26D1), (0x26D3, 0x26D4), (0x26E9, 0x26EA), (0x26F0, 0x26F5), (0x26F7, 0x26FA),
    (0x26FD, 0x26FD), (0x2702, 0x2702), (0x2708, 0x2709), (0x270C, 0x270D), (0x270F, 0x270F),
    (0x2712, 0x2712), (0x2714, 0x2714), (0x2716, 0x2716), (0x271D, 0x271D), (0x2721, 0x2721),
    (0x2733, 0x2734), (0x2744, 0x2744), (0x2747, 0x2747), (0x2753, 0x2753), (0x2757, 0x2757),
    (0x2763, 0x2764), (0x27A1, 0x27A1), (0x2934, 0x2935), (0x2B05, 0x2B07), (0x2B1B, 0x2B1C),
    (0x2B50, 0x2B50), (0x2B55, 0x2B55), (0x3030, 0x3030), (0x303D, 0x303D), (0x3297, 0x3297),
    (0x3299, 0x3299), (0x1F004, 0x1F004), (0x1F170, 0x1F171), (0x1F17E, 0x1F17F),
    (0x1F202, 0x1F202), (0x1F21A, 0x1F21A), (0x1F22F, 0x1F22F), (0x1F237, 0x1F237),
    (0x1F30D, 0x1F30F), (0x1F315, 0x1F315), (0x1F31C, 0x1F31C), (0x1F321, 0x1F321),
    (0x1F324, 0x1F32C), (0x1F336, 0x1F336), (0x1F378, 0x1F378), (0x1F37D, 0x1F37D),
    (0x1F393, 0x1F393), (0x1F396, 0x1F397), (0x1F399, 0x1F39B), (0x1F39E, 0x1F39F),
    (0x1F3A7, 0x1F3A7), (0x1F3AC, 0x1F3AE), (0x1F3C2, 0x1F3C2), (0x1F3C4, 0x1F3C4),
    (0x1F3C6, 0x1F3C6), (0x1F3CA, 0x1F3CE), (0x1F3D4, 0x1F3E0), (0x1F3ED, 0x1F3ED),
    (0x1F3F3, 0x1F3F3), (0x1F3F5, 0x1F3F5), (0x1F3F7, 0x1F3F7), (0x1F408, 0x1F408),
    (0x1F415, 0x1F415), (0x1F41F, 0x1F41F), (0x1F426, 0x1F426), (0x1F43F, 0x1F43F),
    (0x1F441, 0x1F442), (0x1F446, 0x1F449), (0x1F44D, 0x1F44E), (0x1F453, 0x1F453),
    (0x1F46A, 0x1F46A), (0x1F47D, 0x1F47D), (0x1F4A3, 0x1F4A3), (0x1F4B0, 0x1F4B0),
    (0x1F4B3, 0x1F4B3), (0x1F4BB, 0x1F4BB), (0x1F4BF, 0x1F4BF), (0x1F4CB, 0x1F4CB),
    (0x1F4DA, 0x1F4DA), (0x1F4DF, 0x1F4DF), (0x1F4E4, 0x1F4E6), (0x1F4EA, 0x1F4ED),
    (0x1F4F7, 0x1F4F7), (0x1F4F9, 0x1F4FB), (0x1F4FD, 0x1F4FD), (0x1F508, 0x1F508),
    (0x1F50D, 0x1F50D), (0x1F512, 0x1F513), (0x1F549, 0x1F54A), (0x1F550, 0x1F567),
    (0x1F56F, 0x1F570), (0x1F573, 0x1F579), (0x1F587, 0x1F587), (0x1F58A, 0x1F58D),
    (0x1F590, 0x1F590), (0x1F5A5, 0x1F5A5), (0x1F5A8, 0x1F5A8), (0x1F5B1, 0x1F5B2),
    (0x1F5BC, 0x1F5BC), (0x1F5C2, 0x1F5C4), (0x1F5D1, 0x1F5D3), (0x1F5DC, 0x1F5DE),
    (0x1F5E1, 0x1F5E1), (0x1F5E3, 0x1F5E3), (0x1F5E8, 0x1F5E8), (0x1F5EF, 0x1F5EF),
    (0x1F5F3, 0x1F5F3), (0x1F5FA, 0x1F5FA), (0x1F610, 0x1F610), (0x1F687, 0x1F687),
    (0x1F68D, 0x1F68D), (0x1F691, 0x1F691), (0x1F694, 0x1F694), (0x1F698, 0x1F698),
    (0x1F6AD, 0x1F6AD), (0x1F6B2, 0x1F6B2), (0x1F6B9, 0x1F6BA), (0x1F6BC, 0x1F6BC),
    (0x1F6CB, 0x1F6CB), (0x1F6CD, 0x1F6CF), (0x1F6E0, 0x1F6E5), (0x1F6E9, 0x1F6E9),
    (0x1F6F0, 0x1F6F0), (0x1F6F3, 0x1F6F3),
];

/// Codepoints that are drawn as emoji by default, are not ideographic, and form a text
/// presentation sequence with a following U+FE0E.
pub const TEXT_PRESENTATION_BASES: [(u32, u32); 73] = [
    (0x231A, 0x231B), (0x23E9, 0x23EA), (0x23F3, 0x23F3), (0x25FD, 0x25FE), (0x2614, 0x2615),
    (0x2648, 0x2653), (0x267F, 0x267F), (0x2693, 0x2693), (0x26A1, 0x26A1), (0x26AA, 0x26AB),
    (0x26BD, 0x26BE), (0x26C4, 0x26C5), (0x26D4, 0x26D4), (0x26EA, 0x26EA), (0x26F2, 0x26F3),
    (0x26F5, 0x26F5), (0x26FA, 0x26FA), (0x26FD, 0x26FD), (0x2753, 0x2753), (0x2757, 0x2757),
    (0x2B1B, 0x2B1C), (0x2B50, 0x2B50), (0x2B55, 0x2B55), (0x1F004, 0x1F004), (0x1F30D, 0x1F30F),
    (0x1F315, 0x1F315), (0x1F31C, 0x1F31C), (0x1F378, 0x1F378), (0x1F393, 0x1F393),
    (0x1F3A7, 0x1F3A7), (0x1F3AC, 0x1F3AE), (0x1F3C2, 0x1F3C2), (0x1F3C4, 0x1F3C4),
    (0x1F3C6, 0x1F3C6), (0x1F3CA, 0x1F3CA), (0x1F3E0, 0x1F3E0), (0x1F3ED, 0x1F3ED),
    (0x1F408, 0x1F408), (0x1F415, 0x1F415), (0x1F41F, 0x1F41F), (0x1F426, 0x1F426),
    (0x1F442, 0x1F442), (0x1F446, 0x1F449), (0x1F44D, 0x1F44E), (0x1F453, 0x1F453),
    (0x1F46A, 0x1F46A), (0x1F47D, 0x1F47D), (0x1F4A3, 0x1F4A3), (0x1F4B0, 0x1F4B0),
    (0x1F4B3, 0x1F4B3), (0x1F4BB, 0x1F4BB), (0x1F4BF, 0x1F4BF), (0x1F4CB, 0x1F4CB),
    (0x1F4DA, 0x1F4DA), (0x1F4DF, 0x1F4DF), (0x1F4E4, 0x1F4E6), (0x1F4EA, 0x1F4ED),
    (0x1F4F7, 0x1F4F7), (0x1F4F9, 0x1F4FB), (0x1F508, 0x1F508), (0x1F50D, 0x1F50D),
    (0x1F512, 0x1F513), (0x1F550, 0x1F567), (0x1F610, 0x1F610), (0x1F687, 0x1F687),
    (0x1F68D, 0x1F68D), (0x1F691, 0x1F691), (0x1F694, 0x1F694), (0x1F698, 0x1F698),
    (0x1F6AD, 0x1F6AD), (0x1F6B2, 0x1F6B2), (0x1F6B9, 0x1F6BA), (0x1F6BC, 0x1F6BC),
];

/// Codepoints that a following skin tone modifier changes.
pub const EMOJI_MODIFIER_BASES: [(u32, u32); 40] = [
    (0x261D, 0x261D), (0x26F9, 0x26F9), (0x270A, 0x270D), (0x1F385, 0x1F385), (0x1F3C2, 0x1F3C4),
    (0x1F3C7, 0x1F3C7), (0x1F3CA, 0x1F3CC), (0x1F442, 0x1F443), (0x1F446, 0x1F450),
    (0x1F466, 0x1F478), (0x1F47C, 0x1F47C), (0x1F481, 0x1F483), (0x1F485, 0x1F487),
    (0x1F48F, 0x1F48F), (0x1F491, 0x1F491), (0x1F4AA, 0x1F4AA), (0x1F574, 0x1F575),
    (0x1F57A, 0x1F57A), (0x1F590, 0x1F590), (0x1F595, 0x1F596), (0x1F645, 0x1F647),
    (0x1F64B, 0x1F64F), (0x1F6A3, 0x1F6A3), (0x1F6B4, 0x1F6B6), (0x1F6C0, 0x1F6C0),
    (0x1F6CC, 0x1F6CC), (0x1F90C, 0x1F90C), (0x1F90F, 0x1F90F), (0x1F918, 0x1F91F),
    (0x1F926, 0x1F926), (0x1F930, 0x1F939), (0x1F93C, 0x1F93E), (0x1F977, 0x1F977),
    (0x1F9B5, 0x1F9B6), (0x1F9B8, 0x1F9B9), (0x1F9BB, 0x1F9BB), (0x1F9CD, 0x1F9CF),
    (0x1F9D1, 0x1F9DD), (0x1FAC3, 0x1FAC5), (0x1FAF0, 0x1FAF6),
];

/// Codepoints of no width that do not have joining type transparent.
pub const NON_TRANSPARENT_ZERO_WIDTHS: [(u32, u32); 54] = [
    (0x0605, 0x0605), (0x0890, 0x0891), (0x08E2, 0x08E2), (0x09BE, 0x09BE), (0x09D7, 0x09D7),
    (0x0B3E, 0x0B3E), (0x0B57, 0x0B57), (0x0BBE, 0x0BBE), (0x0BD7, 0x0BD7), (0x0CC0, 0x0CC0),
    (0x0CC2, 0x0CC2), (0x0CC7, 0x0CC8), (0x0CCA, 0x0CCB), (0x0CD5, 0x0CD6), (0x0D3E, 0x0D3E),
    (0x0D4E, 0x0D4E), (0x0D57, 0x0D57), (0x0DCF, 0x0DCF), (0x0DDF, 0x0DDF), (0x1160, 0x11FF),
    (0x180E, 0x180E), (0x1B35, 0x1B35), (0x1B3B, 0x1B3B), (0x1B3D, 0x1B3D), (0x1B43, 0x1B43),
    (0x200C, 0x200D), (0x2065, 0x2069), (0x302E, 0x302F), (0x3164, 0x3164), (0xA8FA, 0xA8FA),
    (0xD7B0, 0xD7C6), (0xD7CB, 0xD7FB), (0xFF9E, 0xFFA0), (0xFFF0, 0xFFF8), (0x110BD, 0x110BD),
    (0x110CD, 0x110CD), (0x111C2, 0x111C3), (0x1133E, 0x1133E), (0x11357, 0x11357),
    (0x114B0, 0x114B0), (0x114BD, 0x114BD), (0x115AF, 0x115AF), (0x11930, 0x11930),
    (0x1193F, 0x1193F), (0x11941, 0x11941), (0x11A3A, 0x11A3A), (0x11A84, 0x11A89),
    (0x11D46, 0x11D46), (0x1D165, 0x1D165), (0x1D16E, 0x1D172), (0xE0000, 0xE0000),
    (0xE0002, 0xE001F), (0xE0080, 0xE00FF), (0xE01F0, 0xE0FFF),
];

/// Codepoints that may stand between U+0338 and its base, the ligature-transparent
/// codepoints left out.
pub const SOLIDUS_TRANSPARENT: [(u32, u32); 189] = [
    (0x0300, 0x0333), (0x0339, 0x034E), (0x0350, 0x036F), (0x0483, 0x0487), (0x0591, 0x05BD),
    (0x05BF, 0x05BF), (0x05C1, 0x05C2), (0x05C4, 0x05C5), (0x05C7, 0x05C7), (0x0610, 0x061A),
    (0x064B, 0x065F), (0x0670, 0x0670), (0x06D6, 0x06DC), (0x06DF, 0x06E4), (0x06E7, 0x06E8),
    (0x06EA, 0x06ED), (0x0711, 0x0711), (0x0730, 0x074A), (0x07EB, 0x07F3), (0x07FD, 0x07FD),
    (0x0816, 0x0819), (0x081B, 0x0823), (0x0825, 0x0827), (0x0829, 0x082D), (0x0859, 0x085B),
    (0x0898, 0x089F), (0x08CA, 0x08E1), (0x08E3, 0x08FF), (0x093C, 0x093C), (0x094D, 0x094D),
    (0x0951, 0x0954), (0x09BC, 0x09BC), (0x09CD, 0x09CD), (0x09FE, 0x09FE), (0x0A3C, 0x0A3C),
    (0x0A4D, 0x0A4D), (0x0ABC, 0x0ABC), (0x0ACD, 0x0ACD), (0x0B3C, 0x0B3C), (0x0B4D, 0x0B4D),
    (0x0BCD, 0x0BCD), (0x0C3C, 0x0C3C), (0x0C4D, 0x0C4D), (0x0C55, 0x0C56), (0x0CBC, 0x0CBC),
    (0x0CCD, 0x0CCD), (0x0D3B, 0x0D3C), (0x0D4D, 0x0D4D), (0x0DCA, 0x0DCA), (0x0E38, 0x0E3A),
    (0x0E48, 0x0E4B), (0x0EB8, 0x0EBA), (0x0EC8, 0x0ECB), (0x0F18, 0x0F19), (0x0F35, 0x0F35),
    (0x0F37, 0x0F37), (0x0F39, 0x0F39), (0x0F71, 0x0F75), (0x0F7A, 0x0F7D), (0x0F80, 0x0F84),
    (0x0F86, 0x0F87), (0x0FC6, 0x0FC6), (0x1037, 0x1037), (0x1039, 0x103A), (0x108D, 0x108D),
    (0x135D, 0x135F), (0x1714, 0x1715), (0x1734, 0x1734), (0x17D2, 0x17D2), (0x17DD, 0x17DD),
    (0x18A9, 0x18A9), (0x1939, 0x193B), (0x1A17, 0x1A18), (0x1A60, 0x1A60), (0x1A75, 0x1A7C),
    (0x1A7F, 0x1A7F), (0x1AB0, 0x1ABD), (0x1ABF, 0x1ACE), (0x1B34, 0x1B34), (0x1B44, 0x1B44),
    (0x1B6B, 0x1B73), (0x1BAA, 0x1BAB), (0x1BE6, 0x1BE6), (0x1BF2, 0x1BF3), (0x1C37, 0x1C37),
    (0x1CD0, 0x1CD2), (0x1CD5, 0x1CE0), (0x1CED, 0x1CED), (0x1CF4, 0x1CF4), (0x1CF8, 0x1CF9),
    (0x1DC0, 0x1DFF), (0x20D0, 0x20D1), (0x20D4, 0x20D7), (0x20DB, 0x20DC), (0x20E1, 0x20E1),
    (0x20E7, 0x20E9), (0x20EC, 0x20F0), (0x2CEF, 0x2CF1), (0x2D7F, 0x2D7F), (0x2DE0, 0x2DFF),
    (0x302A, 0x302F), (0x3099, 0x309A), (0xA66F, 0xA66F), (0xA674, 0xA67D), (0xA69E, 0xA69F),
    (0xA6F0, 0xA6F1), (0xA806, 0xA806), (0xA82C, 0xA82C), (0xA8C4, 0xA8C4), (0xA8E0, 0xA8F1),
    (0xA92B, 0xA92D), (0xA953, 0xA953), (0xA9B3, 0xA9B3), (0xA9C0, 0xA9C0), (0xAAB0, 0xAAB0),
    (0xAAB2, 0xAAB4), (0xAAB7, 0xAAB8), (0xAABE, 0xAABF), (0xAAC1, 0xAAC1), (0xAAF6, 0xAAF6),
    (0xABED, 0xABED), (0xFB1E, 0xFB1E), (0xFE20, 0xFE2F), (0xFF9E, 0xFF9F), (0x101FD, 0x101FD),
    (0x102E0, 0x102E0), (0x10376, 0x1037A), (0x10A0D, 0x10A0D), (0x10A0F, 0x10A0F),
    (0x10A38, 0x10A38), (0x10A3A, 0x10A3A), (0x10A3F, 0x10A3F), (0x10AE5, 0x10AE6),
    (0x10D24, 0x10D27), (0x10EAB, 0x10EAC), (0x10F46, 0x10F50), (0x10F82, 0x10F85),
    (0x11046, 0x11046), (0x11070, 0x11070), (0x1107F, 0x1107F), (0x110B9, 0x110BA),
    (0x11100, 0x11102), (0x11133, 0x11134), (0x11173, 0x11173), (0x111C0, 0x111C0),
    (0x111CA, 0x111CA), (0x11235, 0x11236), (0x112E9, 0x112EA), (0x1133B, 0x1133C),
    (0x1134D, 0x1134D), (0x11366, 0x1136C), (0x11370, 0x11374), (0x11442, 0x11442),
    (0x11446, 0x11446), (0x1145E, 0x1145E), (0x114C2, 0x114C3), (0x115BF, 0x115C0),
    (0x1163F, 0x1163F), (0x116B6, 0x116B7), (0x1172B, 0x1172B), (0x11839, 0x1183A),
    (0x1193D, 0x1193E), (0x11943, 0x11943), (0x119E0, 0x119E0), (0x11A34, 0x11A34),
    (0x11A47, 0x11A47), (0x11A99, 0x11A99), (0x11C3F, 0x11C3F), (0x11D42, 0x11D42),
    (0x11D44, 0x11D45), (0x11D97, 0x11D97), (0x16B30, 0x16B36), (0x16FF0, 0x16FF1),
    (0x1D165, 0x1D166), (0x1D16D, 0x1D172), (0x1D17B, 0x1D182), (0x1D185, 0x1D18B),
    (0x1D1AA, 0x1D1AD), (0x1D242, 0x1D244), (0x1E000, 0x1E006), (0x1E008, 0x1E018),
    (0x1E01B, 0x1E021), (0x1E023, 0x1E024), (0x1E026, 0x1E02A), (0x1E130, 0x1E136),
    (0x1E2AE, 0x1E2AE), (0x1E2EC, 0x1E2EF), (0x1E8D0, 0x1E8D6), (0x1E944, 0x1E94A),
];

/// The ranges of [`ZERO_WIDTH`] ascend and do not overlap.
pub proof fn lemma_zero_width_is_table()
    ensures
        is_interval_table(ZERO_WIDTH@),
{
}

/// The ranges of [`WIDE`] ascend and do not overlap.
pub proof fn lemma_wide_is_table()
    ensures
        is_interval_table(WIDE@),
{
}

/// The ranges of [`AMBIGUOUS`] ascend and do not overlap.
pub proof fn lemma_ambiguous_is_table()
    ensures
        is_interval_table(AMBIGUOUS@),
{
}

/// The ranges of [`EMOJI_PRESENTATION`] ascend and do not overlap.
pub proof fn lemma_emoji_presentation_is_table()
    ensures
        is_interval_table(EMOJI_PRESENTATION@),
{
}

/// The ranges of [`EMOJI_PRESENTATION_BASES`] ascend and do not overlap.
pub proof fn lemma_emoji_presentation_bases_is_table()
    ensures
        is_interval_table(EMOJI_PRESENTATION_BASES@),
{
}

/// The ranges of [`TEXT_PRESENTATION_BASES`] ascend and do not overlap.
pub proof fn lemma_text_presentation_bases_is_table()
    ensures
        is_interval_table(TEXT_PRESENTATION_BASES@),
{
}

/// The ranges of [`EMOJI_MODIFIER_BASES`] ascend and do not overlap.
pub proof fn lemma_emoji_modifier_bases_is_table()
    ensures
        is_interval_table(EMOJI_MODIFIER_BASES@),
{
}

/// The ranges of [`NON_TRANSPARENT_ZERO_WIDTHS`] ascend and do not overlap.
pub proof fn lemma_non_transparent_zero_widths_is_table()
    ensures
        is_interval_table(NON_TRANSPARENT_ZERO_WIDTHS@),
{
}

/// The ranges of [`SOLIDUS_TRANSPARENT`] ascend and do not overlap.
pub proof fn lemma_solidus_transparent_is_table()
    ensures
        is_interval_table(SOLIDUS_TRANSPARENT@),
{
}

} // verus!
