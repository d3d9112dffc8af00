//! The printer's character set: a fixed, bidirectional mapping between
//! Unicode scalar values and the 256 single-byte codes the printer firmware
//! understands.  Codes 0x00..=0x7F carry the matching ASCII character
//! unchanged; codes 0x80..=0xFF carry a fixed extended table.  The mapping is
//! a closed bijection over the 256 codes, which the two lemmas at the bottom
//! state and prove.
use vstd::prelude::*;

verus! {

/// Character assigned to a code in the extended half of the table
/// (0x80..=0xFF); the final arm carries the character for 0xFF.
pub open spec fn char_of_extended_code(code: u8) -> char
    recommends
        0x80 <= code,
{
    match code {
        0x80 => '\u{00C7}',
        0x81 => '\u{00FC}',
        0x82 => '\u{00E9}',
        0x83 => '\u{00E2}',
        0x84 => '\u{00E4}',
        0x85 => '\u{00E0}',
        0x86 => '\u{00E5}',
        0x87 => '\u{00E7}',
        0x88 => '\u{00EA}',
        0x89 => '\u{00EB}',
        0x8A => '\u{00E8}',
        0x8B => '\u{00EF}',
        0x8C => '\u{00EE}',
        0x8D => '\u{00EC}',
        0x8E => '\u{00C4}',
        0x8F => '\u{00C5}',
        0x90 => '\u{00C9}',
        0x91 => '\u{00E6}',
        0x92 => '\u{00C6}',
        0x93 => '\u{00F4}',
        0x94 => '\u{00F6}',
        0x95 => '\u{00F2}',
        0x96 => '\u{00FB}',
        0x97 => '\u{00F9}',
        0x98 => '\u{00FF}',
        0x99 => '\u{00D6}',
        0x9A => '\u{00DC}',
        0x9B => '\u{00A2}',
        0x9C => '\u{00A3}',
        0x9D => '\u{00A5}',
        0x9E => '\u{20A7}',
        0x9F => '\u{0192}',
        0xA0 => '\u{00E1}',
        0xA1 => '\u{00ED}',
        0xA2 => '\u{00F3}',
        0xA3 => '\u{00FA}',
        0xA4 => '\u{00F1}',
        0xA5 => '\u{00D1}',
        0xA6 => '\u{00AA}',
        0xA7 => '\u{00BA}',
        0xA8 => '\u{00BF}',
        0xA9 => '\u{2310}',
        0xAA => '\u{00AC}',
        0xAB => '\u{00BD}',
        0xAC => '\u{00BC}',
        0xAD => '\u{00A1}',
        0xAE => '\u{00AB}',
        0xAF => '\u{00BB}',
        0xB0 => '\u{2591}',
        0xB1 => '\u{2592}',
        0xB2 => '\u{2593}',
        0xB3 => '\u{2502}',
        0xB4 => '\u{2524}',
        0xB5 => '\u{2561}',
        0xB6 => '\u{2562}',
        0xB7 => '\u{2556}',
        0xB8 => '\u{2555}',
        0xB9 => '\u{2563}',
        0xBA => '\u{2551}',
        0xBB => '\u{2557}',
        0xBC => '\u{255D}',
        0xBD => '\u{255C}',
        0xBE => '\u{255B}',
        0xBF => '\u{2510}',
        0xC0 => '\u{2514}',
        0xC1 => '\u{2534}',
        0xC2 => '\u{252C}',
        0xC3 => '\u{251C}',
        0xC4 => '\u{2500}',
        0xC5 => '\u{253C}',
        0xC6 => '\u{255E}',
        0xC7 => '\u{255F}',
        0xC8 => '\u{255A}',
        0xC9 => '\u{2554}',
        0xCA => '\u{2569}',
        0xCB => '\u{2566}',
        0xCC => '\u{2560}',
        0xCD => '\u{2550}',
        0xCE => '\u{256C}',
        0xCF => '\u{2567}',
        0xD0 => '\u{2568}',
        0xD1 => '\u{2564}',
        0xD2 => '\u{2565}',
        0xD3 => '\u{2559}',
        0xD4 => '\u{2558}',
        0xD5 => '\u{2552}',
        0xD6 => '\u{2553}',
        0xD7 => '\u{256B}',
        0xD8 => '\u{256A}',
        0xD9 => '\u{2518}',
        0xDA => '\u{250C}',
        0xDB => '\u{2588}',
        0xDC => '\u{2584}',
        0xDD => '\u{258C}',
        0xDE => '\u{2590}',
        0xDF => '\u{2580}',
        0xE0 => '\u{03B1}',
        0xE1 => '\u{00DF}',
        0xE2 => '\u{0393}',
        0xE3 => '\u{03C0}',
        0xE4 => '\u{03A3}',
        0xE5 => '\u{03C3}',
        0xE6 => '\u{00B5}',
        0xE7 => '\u{03C4}',
        0xE8 => '\u{03A6}',
        0xE9 => '\u{0398}',
        0xEA => '\u{03A9}',
        0xEB => '\u{03B4}',
        0xEC => '\u{221E}',
        0xED => '\u{03C6}',
        0xEE => '\u{03B5}',
        0xEF => '\u{2229}',
        0xF0 => '\u{2261}',
        0xF1 => '\u{00B1}',
        0xF2 => '\u{2265}',
        0xF3 => '\u{2264}',
        0xF4 => '\u{2320}',
        0xF5 => '\u{2321}',
        0xF6 => '\u{00F7}',
        0xF7 => '\u{2248}',
        0xF8 => '\u{00B0}',
        0xF9 => '\u{2219}',
        0xFA => '\u{00B7}',
        0xFB => '\u{221A}',
        0xFC => '\u{207F}',
        0xFD => '\u{00B2}',
        0xFE => '\u{25A0}',
        _ => '\u{00A0}',
    }
}

/// Extended-table code assigned to a character, `None` for a character that
/// has no code in the extended half.
pub open spec fn code_of_extended_char(c: char) -> Option<u8> {
    match c {
        '\u{00C7}' => Some(0x80),
        '\u{00FC}' => Some(0x81),
        '\u{00E9}' => Some(0x82),
        '\u{00E2}' => Some(0x83),
        '\u{00E4}' => Some(0x84),
        '\u{00E0}' => Some(0x85),
        '\u{00E5}' => Some(0x86),
        '\u{00E7}' => Some(0x87),
        '\u{00EA}' => Some(0x88),
        '\u{00EB}' => Some(0x89),
        '\u{00E8}' => Some(0x8A),
        '\u{00EF}' => Some(0x8B),
        '\u{00EE}' => Some(0x8C),
        '\u{00EC}' => Some(0x8D),
        '\u{00C4}' => Some(0x8E),
        '\u{00C5}' => Some(0x8F),
        '\u{00C9}' => Some(0x90),
        '\u{00E6}' => Some(0x91),
        '\u{00C6}' => Some(0x92),
        '\u{00F4}' => Some(0x93),
        '\u{00F6}' => Some(0x94),
        '\u{00F2}' => Some(0x95),
        '\u{00FB}' => Some(0x96),
        '\u{00F9}' => Some(0x97),
        '\u{00FF}' => Some(0x98),
        '\u{00D6}' => Some(0x99),
        '\u{00DC}' => Some(0x9A),
        '\u{00A2}' => Some(0x9B),
        '\u{00A3}' => Some(0x9C),
        '\u{00A5}' => Some(0x9D),
        '\u{20A7}' => Some(0x9E),
        '\u{0192}' => Some(0x9F),
        '\u{00E1}' => Some(0xA0),
        '\u{00ED}' => Some(0xA1),
        '\u{00F3}' => Some(0xA2),
        '\u{00FA}' => Some(0xA3),
        '\u{00F1}' => Some(0xA4),
        '\u{00D1}' => Some(0xA5),
        '\u{00AA}' => Some(0xA6),
        '\u{00BA}' => Some(0xA7),
        '\u{00BF}' => Some(0xA8),
        '\u{2310}' => Some(0xA9),
        '\u{00AC}' => Some(0xAA),
        '\u{00BD}' => Some(0xAB),
        '\u{00BC}' => Some(0xAC),
        '\u{00A1}' => Some(0xAD),
        '\u{00AB}' => Some(0xAE),
        '\u{00BB}' => Some(0xAF),
        '\u{2591}' => Some(0xB0),
        '\u{2592}' => Some(0xB1),
        '\u{2593}' => Some(0xB2),
        '\u{2502}' => Some(0xB3),
        '\u{2524}' => Some(0xB4),
        '\u{2561}' => Some(0xB5),
        '\u{2562}' => Some(0xB6),
        '\u{2556}' => Some(0xB7),
        '\u{2555}' => Some(0xB8),
        '\u{2563}' => Some(0xB9),
        '\u{2551}' => Some(0xBA),
        '\u{2557}' => Some(0xBB),
        '\u{255D}' => Some(0xBC),
        '\u{255C}' => Some(0xBD),
        '\u{255B}' => Some(0xBE),
        '\u{2510}' => Some(0xBF),
        '\u{2514}' => Some(0xC0),
        '\u{2534}' => Some(0xC1),
        '\u{252C}' => Some(0xC2),
        '\u{251C}' => Some(0xC3),
        '\u{2500}' => Some(0xC4),
        '\u{253C}' => Some(0xC5),
        '\u{255E}' => Some(0xC6),
        '\u{255F}' => Some(0xC7),
        '\u{255A}' => Some(0xC8),
        '\u{2554}' => Some(0xC9),
        '\u{2569}' => Some(0xCA),
        '\u{2566}' => Some(0xCB),
        '\u{2560}' => Some(0xCC),
        '\u{2550}' => Some(0xCD),
        '\u{256C}' => Some(0xCE),
        '\u{2567}' => Some(0xCF),
        '\u{2568}' => Some(0xD0),
        '\u{2564}' => Some(0xD1),
        '\u{2565}' => Some(0xD2),
        '\u{2559}' => Some(0xD3),
        '\u{2558}' => Some(0xD4),
        '\u{2552}' => Some(0xD5),
        '\u{2553}' => Some(0xD6),
        '\u{256B}' => Some(0xD7),
        '\u{256A}' => Some(0xD8),
        '\u{2518}' => Some(0xD9),
        '\u{250C}' => Some(0xDA),
        '\u{2588}' => Some(0xDB),
        '\u{2584}' => Some(0xDC),
        '\u{258C}' => Some(0xDD),
        '\u{2590}' => Some(0xDE),
        '\u{2580}' => Some(0xDF),
        '\u{03B1}' => Some(0xE0),
        '\u{00DF}' => Some(0xE1),
        '\u{0393}' => Some(0xE2),
        '\u{03C0}' => Some(0xE3),
        '\u{03A3}' => Some(0xE4),
        '\u{03C3}' => Some(0xE5),
        '\u{00B5}' => Some(0xE6),
        '\u{03C4}' => Some(0xE7),
        '\u{03A6}' => Some(0xE8),
        '\u{0398}' => Some(0xE9),
        '\u{03A9}' => Some(0xEA),
        '\u{03B4}' => Some(0xEB),
        '\u{221E}' => Some(0xEC),
        '\u{03C6}' => Some(0xED),
        '\u{03B5}' => Some(0xEE),
        '\u{2229}' => Some(0xEF),
        '\u{2261}' => Some(0xF0),
        '\u{00B1}' => Some(0xF1),
        '\u{2265}' => Some(0xF2),
        '\u{2264}' => Some(0xF3),
        '\u{2320}' => Some(0xF4),
        '\u{2321}' => Some(0xF5),
        '\u{00F7}' => Some(0xF6),
        '\u{2248}' => Some(0xF7),
        '\u{00B0}' => Some(0xF8),
        '\u{2219}' => Some(0xF9),
        '\u{00B7}' => Some(0xFA),
        '\u{221A}' => Some(0xFB),
        '\u{207F}' => Some(0xFC),
        '\u{00B2}' => Some(0xFD),
        '\u{25A0}' => Some(0xFE),
        '\u{00A0}' => Some(0xFF),
        _ => None,
    }
}

/// Character assigned to a code: ASCII passthrough below 0x80, the extended
/// table from 0x80 up.  Total over all 256 codes.
pub open spec fn char_of_code(code: u8) -> char {
    if code < 0x80 {
        code as char
    } else {
        char_of_extended_code(code)
    }
}

/// Code assigned to a character: ASCII passthrough below 0x80, the extended
/// table otherwise; `None` for a character outside the printer's set.
pub open spec fn code_of_char(c: char) -> Option<u8> {
    if (c as int) < 0x80 {
        Some(c as u8)
    } else {
        code_of_extended_char(c)
    }
}

/// Decode a single code to its character.
pub fn char_from_code(code: u8) -> (c: char)
    ensures
        c == char_of_code(code),
{
    if code < 0x80 {
        code as char
    } else {
        match code {
            0x80 => '\u{00C7}',
            0x81 => '\u{00FC}',
            0x82 => '\u{00E9}',
            0x83 => '\u{00E2}',
            0x84 => '\u{00E4}',
            0x85 => '\u{00E0}',
            0x86 => '\u{00E5}',
            0x87 => '\u{00E7}',
            0x88 => '\u{00EA}',
            0x89 => '\u{00EB}',
            0x8A => '\u{00E8}',
            0x8B => '\u{00EF}',
            0x8C => '\u{00EE}',
            0x8D => '\u{00EC}',
            0x8E => '\u{00C4}',
            0x8F => '\u{00C5}',
            0x90 => '\u{00C9}',
            0x91 => '\u{00E6}',
            0x92 => '\u{00C6}',
            0x93 => '\u{00F4}',
            0x94 => '\u{00F6}',
            0x95 => '\u{00F2}',
            0x96 => '\u{00FB}',
            0x97 => '\u{00F9}',
            0x98 => '\u{00FF}',
            0x99 => '\u{00D6}',
            0x9A => '\u{00DC}',
            0x9B => '\u{00A2}',
            0x9C => '\u{00A3}',
            0x9D => '\u{00A5}',
            0x9E => '\u{20A7}',
            0x9F => '\u{0192}',
            0xA0 => '\u{00E1}',
            0xA1 => '\u{00ED}',
            0xA2 => '\u{00F3}',
            0xA3 => '\u{00FA}',
            0xA4 => '\u{00F1}',
            0xA5 => '\u{00D1}',
            0xA6 => '\u{00AA}',
            0xA7 => '\u{00BA}',
            0xA8 => '\u{00BF}',
            0xA9 => '\u{2310}',
            0xAA => '\u{00AC}',
            0xAB => '\u{00BD}',
            0xAC => '\u{00BC}',
            0xAD => '\u{00A1}',
            0xAE => '\u{00AB}',
            0xAF => '\u{00BB}',
            0xB0 => '\u{2591}',
            0xB1 => '\u{2592}',
            0xB2 => '\u{2593}',
            0xB3 => '\u{2502}',
            0xB4 => '\u{2524}',
            0xB5 => '\u{2561}',
            0xB6 => '\u{2562}',
            0xB7 => '\u{2556}',
            0xB8 => '\u{2555}',
            0xB9 => '\u{2563}',
            0xBA => '\u{2551}',
            0xBB => '\u{2557}',
            0xBC => '\u{255D}',
            0xBD => '\u{255C}',
            0xBE => '\u{255B}',
            0xBF => '\u{2510}',
            0xC0 => '\u{2514}',
            0xC1 => '\u{2534}',
            0xC2 => '\u{252C}',
            0xC3 => '\u{251C}',
            0xC4 => '\u{2500}',
            0xC5 => '\u{253C}',
            0xC6 => '\u{255E}',
            0xC7 => '\u{255F}',
            0xC8 => '\u{255A}',
            0xC9 => '\u{2554}',
            0xCA => '\u{2569}',
            0xCB => '\u{2566}',
            0xCC => '\u{2560}',
            0xCD => '\u{2550}',
            0xCE => '\u{256C}',
            0xCF => '\u{2567}',
            0xD0 => '\u{2568}',
            0xD1 => '\u{2564}',
            0xD2 => '\u{2565}',
            0xD3 => '\u{2559}',
            0xD4 => '\u{2558}',
            0xD5 => '\u{2552}',
            0xD6 => '\u{2553}',
            0xD7 => '\u{256B}',
            0xD8 => '\u{256A}',
            0xD9 => '\u{2518}',
            0xDA => '\u{250C}',
            0xDB => '\u{2588}',
            0xDC => '\u{2584}',
            0xDD => '\u{258C}',
            0xDE => '\u{2590}',
            0xDF => '\u{2580}',
            0xE0 => '\u{03B1}',
            0xE1 => '\u{00DF}',
            0xE2 => '\u{0393}',
            0xE3 => '\u{03C0}',
            0xE4 => '\u{03A3}',
            0xE5 => '\u{03C3}',
            0xE6 => '\u{00B5}',
            0xE7 => '\u{03C4}',
            0xE8 => '\u{03A6}',
            0xE9 => '\u{0398}',
            0xEA => '\u{03A9}',
            0xEB => '\u{03B4}',
            0xEC => '\u{221E}',
            0xED => '\u{03C6}',
            0xEE => '\u{03B5}',
            0xEF => '\u{2229}',
            0xF0 => '\u{2261}',
            0xF1 => '\u{00B1}',
            0xF2 => '\u{2265}',
            0xF3 => '\u{2264}',
            0xF4 => '\u{2320}',
            0xF5 => '\u{2321}',
            0xF6 => '\u{00F7}',
            0xF7 => '\u{2248}',
            0xF8 => '\u{00B0}',
            0xF9 => '\u{2219}',
            0xFA => '\u{00B7}',
            0xFB => '\u{221A}',
            0xFC => '\u{207F}',
            0xFD => '\u{00B2}',
            0xFE => '\u{25A0}',
            _ => '\u{00A0}',
        }
    }
}

/// Encode a single character to its code, `None` for a character outside the
/// printer's set.
pub fn code_from_char(c: char) -> (r: Option<u8>)
    ensures
        r == code_of_char(c),
{
    if (c as u32) < 0x80 {
        Some(c as u8)
    } else {
        match c {
            '\u{00C7}' => Some(0x80),
            '\u{00FC}' => Some(0x81),
            '\u{00E9}' => Some(0x82),
            '\u{00E2}' => Some(0x83),
            '\u{00E4}' => Some(0x84),
            '\u{00E0}' => Some(0x85),
            '\u{00E5}' => Some(0x86),
            '\u{00E7}' => Some(0x87),
            '\u{00EA}' => Some(0x88),
            '\u{00EB}' => Some(0x89),
            '\u{00E8}' => Some(0x8A),
            '\u{00EF}' => Some(0x8B),
            '\u{00EE}' => Some(0x8C),
            '\u{00EC}' => Some(0x8D),
            '\u{00C4}' => Some(0x8E),
            '\u{00C5}' => Some(0x8F),
            '\u{00C9}' => Some(0x90),
            '\u{00E6}' => Some(0x91),
            '\u{00C6}' => Some(0x92),
            '\u{00F4}' => Some(0x93),
            '\u{00F6}' => Some(0x94),
            '\u{00F2}' => Some(0x95),
            '\u{00FB}' => Some(0x96),
            '\u{00F9}' => Some(0x97),
            '\u{00FF}' => Some(0x98),
            '\u{00D6}' => Some(0x99),
            '\u{00DC}' => Some(0x9A),
            '\u{00A2}' => Some(0x9B),
            '\u{00A3}' => Some(0x9C),
            '\u{00A5}' => Some(0x9D),
            '\u{20A7}' => Some(0x9E),
            '\u{0192}' => Some(0x9F),
            '\u{00E1}' => Some(0xA0),
            '\u{00ED}' => Some(0xA1),
            '\u{00F3}' => Some(0xA2),
            '\u{00FA}' => Some(0xA3),
            '\u{00F1}' => Some(0xA4),
            '\u{00D1}' => Some(0xA5),
            '\u{00AA}' => Some(0xA6),
            '\u{00BA}' => Some(0xA7),
            '\u{00BF}' => Some(0xA8),
            '\u{2310}' => Some(0xA9),
            '\u{00AC}' => Some(0xAA),
            '\u{00BD}' => Some(0xAB),
            '\u{00BC}' => Some(0xAC),
            '\u{00A1}' => Some(0xAD),
            '\u{00AB}' => Some(0xAE),
            '\u{00BB}' => Some(0xAF),
            '\u{2591}' => Some(0xB0),
            '\u{2592}' => Some(0xB1),
            '\u{2593}' => Some(0xB2),
            '\u{2502}' => Some(0xB3),
            '\u{2524}' => Some(0xB4),
            '\u{2561}' => Some(0xB5),
            '\u{2562}' => Some(0xB6),
            '\u{2556}' => Some(0xB7),
            '\u{2555}' => Some(0xB8),
            '\u{2563}' => Some(0xB9),
            '\u{2551}' => Some(0xBA),
            '\u{2557}' => Some(0xBB),
            '\u{255D}' => Some(0xBC),
            '\u{255C}' => Some(0xBD),
            '\u{255B}' => Some(0xBE),
            '\u{2510}' => Some(0xBF),
            '\u{2514}' => Some(0xC0),
            '\u{2534}' => Some(0xC1),
            '\u{252C}' => Some(0xC2),
            '\u{251C}' => Some(0xC3),
            '\u{2500}' => Some(0xC4),
            '\u{253C}' => Some(0xC5),
            '\u{255E}' => Some(0xC6),
            '\u{255F}' => Some(0xC7),
            '\u{255A}' => Some(0xC8),
            '\u{2554}' => Some(0xC9),
            '\u{2569}' => Some(0xCA),
            '\u{2566}' => Some(0xCB),
            '\u{2560}' => Some(0xCC),
            '\u{2550}' => Some(0xCD),
            '\u{256C}' => Some(0xCE),
            '\u{2567}' => Some(0xCF),
            '\u{2568}' => Some(0xD0),
            '\u{2564}' => Some(0xD1),
            '\u{2565}' => Some(0xD2),
            '\u{2559}' => Some(0xD3),
            '\u{2558}' => Some(0xD4),
            '\u{2552}' => Some(0xD5),
            '\u{2553}' => Some(0xD6),
            '\u{256B}' => Some(0xD7),
            '\u{256A}' => Some(0xD8),
            '\u{2518}' => Some(0xD9),
            '\u{250C}' => Some(0xDA),
            '\u{2588}' => Some(0xDB),
            '\u{2584}' => Some(0xDC),
            '\u{258C}' => Some(0xDD),
            '\u{2590}' => Some(0xDE),
            '\u{2580}' => Some(0xDF),
            '\u{03B1}' => Some(0xE0),
            '\u{00DF}' => Some(0xE1),
            '\u{0393}' => Some(0xE2),
            '\u{03C0}' => Some(0xE3),
            '\u{03A3}' => Some(0xE4),
            '\u{03C3}' => Some(0xE5),
            '\u{00B5}' => Some(0xE6),
            '\u{03C4}' => Some(0xE7),
            '\u{03A6}' => Some(0xE8),
            '\u{0398}' => Some(0xE9),
            '\u{03A9}' => Some(0xEA),
            '\u{03B4}' => Some(0xEB),
            '\u{221E}' => Some(0xEC),
            '\u{03C6}' => Some(0xED),
            '\u{03B5}' => Some(0xEE),
            '\u{2229}' => Some(0xEF),
            '\u{2261}' => Some(0xF0),
            '\u{00B1}' => Some(0xF1),
            '\u{2265}' => Some(0xF2),
            '\u{2264}' => Some(0xF3),
            '\u{2320}' => Some(0xF4),
            '\u{2321}' => Some(0xF5),
            '\u{00F7}' => Some(0xF6),
            '\u{2248}' => Some(0xF7),
            '\u{00B0}' => Some(0xF8),
            '\u{2219}' => Some(0xF9),
            '\u{00B7}' => Some(0xFA),
            '\u{221A}' => Some(0xFB),
            '\u{207F}' => Some(0xFC),
            '\u{00B2}' => Some(0xFD),
            '\u{25A0}' => Some(0xFE),
            '\u{00A0}' => Some(0xFF),
            _ => None,
        }
    }
}

/// Decoding any code to its character and re-encoding that character yields
/// the code back: every one of the 256 codes survives a round trip through
/// the character set.
pub proof fn lemma_decode_encode_round_trip(code: u8)
    ensures
        code_of_char(char_of_code(code)) == Some(code),
{
}

/// Encoding any representable character and decoding the resulting code
/// yields the character back: together with the round trip over codes, the
/// mapping is a closed bijection.
pub proof fn lemma_encode_decode_round_trip(c: char)
    ensures
        code_of_char(c) matches Some(code) ==> char_of_code(code) == c,
{
}

} // verus!
