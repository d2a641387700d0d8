//! RDP scancode (set 1) to macOS virtual keycode mapping.
//!
//! Modifiers are mapped by position: Ctrl to Control, Alt to Command, the
//! Windows key to Option. Numpad keys always map to numeric input; their
//! extended scancodes map to the navigation keys. PrintScreen maps to F13
//! and the Menu key to the contextual-menu key.
use vstd::prelude::*;

verus! {

/// macOS keycode of a standard (non-extended) scancode.
pub open spec fn standard_keycode(scancode: u8) -> Option<u16> {
    match scancode {
        0x01u8 => Some(0x35u16),
        0x3Bu8 => Some(0x7Au16),
        0x3Cu8 => Some(0x78u16),
        0x3Du8 => Some(0x63u16),
        0x3Eu8 => Some(0x76u16),
        0x3Fu8 => Some(0x60u16),
        0x40u8 => Some(0x61u16),
        0x41u8 => Some(0x62u16),
        0x42u8 => Some(0x64u16),
        0x43u8 => Some(0x65u16),
        0x44u8 => Some(0x6Du16),
        0x57u8 => Some(0x67u16),
        0x58u8 => Some(0x6Fu16),
        0x29u8 => Some(0x32u16),
        0x02u8 => Some(0x12u16),
        0x03u8 => Some(0x13u16),
        0x04u8 => Some(0x14u16),
        0x05u8 => Some(0x15u16),
        0x06u8 => Some(0x17u16),
        0x07u8 => Some(0x16u16),
        0x08u8 => Some(0x1Au16),
        0x09u8 => Some(0x1Cu16),
        0x0Au8 => Some(0x19u16),
        0x0Bu8 => Some(0x1Du16),
        0x0Cu8 => Some(0x1Bu16),
        0x0Du8 => Some(0x18u16),
        0x0Eu8 => Some(0x33u16),
        0x0Fu8 => Some(0x30u16),
        0x10u8 => Some(0x0Cu16),
        0x11u8 => Some(0x0Du16),
        0x12u8 => Some(0x0Eu16),
        0x13u8 => Some(0x0Fu16),
        0x14u8 => Some(0x11u16),
        0x15u8 => Some(0x10u16),
        0x16u8 => Some(0x20u16),
        0x17u8 => Some(0x22u16),
        0x18u8 => Some(0x1Fu16),
        0x19u8 => Some(0x23u16),
        0x1Au8 => Some(0x21u16),
        0x1Bu8 => Some(0x1Eu16),
        0x2Bu8 => Some(0x2Au16),
        0x3Au8 => Some(0x39u16),
        0x1Eu8 => Some(0x00u16),
        0x1Fu8 => Some(0x01u16),
        0x20u8 => Some(0x02u16),
        0x21u8 => Some(0x03u16),
        0x22u8 => Some(0x05u16),
        0x23u8 => Some(0x04u16),
        0x24u8 => Some(0x26u16),
        0x25u8 => Some(0x28u16),
        0x26u8 => Some(0x25u16),
        0x27u8 => Some(0x29u16),
        0x28u8 => Some(0x27u16),
        0x1Cu8 => Some(0x24u16),
        0x2Au8 => Some(0x38u16),
        0x2Cu8 => Some(0x06u16),
        0x2Du8 => Some(0x07u16),
        0x2Eu8 => Some(0x08u16),
        0x2Fu8 => Some(0x09u16),
        0x30u8 => Some(0x0Bu16),
        0x31u8 => Some(0x2Du16),
        0x32u8 => Some(0x2Eu16),
        0x33u8 => Some(0x2Bu16),
        0x34u8 => Some(0x2Fu16),
        0x35u8 => Some(0x2Cu16),
        0x36u8 => Some(0x3Cu16),
        0x1Du8 => Some(0x3Bu16),
        0x38u8 => Some(0x37u16),
        0x39u8 => Some(0x31u16),
        0x52u8 => Some(0x52u16),
        0x4Fu8 => Some(0x53u16),
        0x50u8 => Some(0x54u16),
        0x51u8 => Some(0x55u16),
        0x4Bu8 => Some(0x56u16),
        0x4Cu8 => Some(0x57u16),
        0x4Du8 => Some(0x58u16),
        0x47u8 => Some(0x59u16),
        0x48u8 => Some(0x5Bu16),
        0x49u8 => Some(0x5Cu16),
        0x53u8 => Some(0x41u16),
        0x37u8 => Some(0x43u16),
        0x4Au8 => Some(0x4Eu16),
        0x4Eu8 => Some(0x45u16),
        0x45u8 => Some(0x47u16),
        0x46u8 => Some(0x6Bu16),
        _ => None,
    }
}

/// macOS keycode of an extended scancode.
pub open spec fn extended_keycode(scancode: u8) -> Option<u16> {
    match scancode {
        0x1Du8 => Some(0x3Eu16),
        0x38u8 => Some(0x36u16),
        0x5Bu8 => Some(0x3Au16),
        0x5Cu8 => Some(0x3Du16),
        0x48u8 => Some(0x7Eu16),
        0x50u8 => Some(0x7Du16),
        0x4Bu8 => Some(0x7Bu16),
        0x4Du8 => Some(0x7Cu16),
        0x47u8 => Some(0x73u16),
        0x4Fu8 => Some(0x77u16),
        0x49u8 => Some(0x74u16),
        0x51u8 => Some(0x79u16),
        0x52u8 => Some(0x72u16),
        0x53u8 => Some(0x75u16),
        0x35u8 => Some(0x4Bu16),
        0x1Cu8 => Some(0x4Cu16),
        0x37u8 => Some(0x69u16),
        0x5Du8 => Some(0x6Eu16),
        _ => None,
    }
}

/// The key a macOS keycode comes from: the scancode and extended flag that
/// map to it, or `None` for a keycode that no key maps to.
pub open spec fn key_of_keycode(keycode: u16) -> Option<(u8, bool)> {
    match keycode {
        0x00u16 => Some((0x1Eu8, false)),
        0x01u16 => Some((0x1Fu8, false)),
        0x02u16 => Some((0x20u8, false)),
        0x03u16 => Some((0x21u8, false)),
        0x04u16 => Some((0x23u8, false)),
        0x05u16 => Some((0x22u8, false)),
        0x06u16 => Some((0x2Cu8, false)),
        0x07u16 => Some((0x2Du8, false)),
        0x08u16 => Some((0x2Eu8, false)),
        0x09u16 => Some((0x2Fu8, false)),
        0x0Bu16 => Some((0x30u8, false)),
        0x0Cu16 => Some((0x10u8, false)),
        0x0Du16 => Some((0x11u8, false)),
        0x0Eu16 => Some((0x12u8, false)),
        0x0Fu16 => Some((0x13u8, false)),
        0x10u16 => Some((0x15u8, false)),
        0x11u16 => Some((0x14u8, false)),
        0x12u16 => Some((0x02u8, false)),
        0x13u16 => Some((0x03u8, false)),
        0x14u16 => Some((0x04u8, false)),
        0x15u16 => Some((0x05u8, false)),
        0x16u16 => Some((0x07u8, false)),
        0x17u16 => Some((0x06u8, false)),
        0x18u16 => Some((0x0Du8, false)),
        0x19u16 => Some((0x0Au8, false)),
        0x1Au16 => Some((0x08u8, false)),
        0x1Bu16 => Some((0x0Cu8, false)),
        0x1Cu16 => Some((0x09u8, false)),
        0x1Du16 => Some((0x0Bu8, false)),
        0x1Eu16 => Some((0x1Bu8, false)),
        0x1Fu16 => Some((0x18u8, false)),
        0x20u16 => Some((0x16u8, false)),
        0x21u16 => Some((0x1Au8, false)),
        0x22u16 => Some((0x17u8, false)),
        0x23u16 => Some((0x19u8, false)),
        0x24u16 => Some((0x1Cu8, false)),
        0x25u16 => Some((0x26u8, false)),
        0x26u16 => Some((0x24u8, false)),
        0x27u16 => Some((0x28u8, false)),
        0x28u16 => Some((0x25u8, false)),
        0x29u16 => Some((0x27u8, false)),
        0x2Au16 => Some((0x2Bu8, false)),
        0x2Bu16 => Some((0x33u8, false)),
        0x2Cu16 => Some((0x35u8, false)),
        0x2Du16 => Some((0x31u8, false)),
        0x2Eu16 => Some((0x32u8, false)),
        0x2Fu16 => Some((0x34u8, false)),
        0x30u16 => Some((0x0Fu8, false)),
        0x31u16 => Some((0x39u8, false)),
        0x32u16 => Some((0x29u8, false)),
        0x33u16 => Some((0x0Eu8, false)),
        0x35u16 => Some((0x01u8, false)),
        0x36u16 => Some((0x38u8, true)),
        0x37u16 => Some((0x38u8, false)),
        0x38u16 => Some((0x2Au8, false)),
        0x39u16 => Some((0x3Au8, false)),
        0x3Au16 => Some((0x5Bu8, true)),
        0x3Bu16 => Some((0x1Du8, false)),
        0x3Cu16 => Some((0x36u8, false)),
        0x3Du16 => Some((0x5Cu8, true)),
        0x3Eu16 => Some((0x1Du8, true)),
        0x41u16 => Some((0x53u8, false)),
        0x43u16 => Some((0x37u8, false)),
        0x45u16 => Some((0x4Eu8, false)),
        0x47u16 => Some((0x45u8, false)),
        0x4Bu16 => Some((0x35u8, true)),
        0x4Cu16 => Some((0x1Cu8, true)),
        0x4Eu16 => Some((0x4Au8, false)),
        0x52u16 => Some((0x52u8, false)),
        0x53u16 => Some((0x4Fu8, false)),
        0x54u16 => Some((0x50u8, false)),
        0x55u16 => Some((0x51u8, false)),
        0x56u16 => Some((0x4Bu8, false)),
        0x57u16 => Some((0x4Cu8, false)),
        0x58u16 => Some((0x4Du8, false)),
        0x59u16 => Some((0x47u8, false)),
        0x5Bu16 => Some((0x48u8, false)),
        0x5Cu16 => Some((0x49u8, false)),
        0x60u16 => Some((0x3Fu8, false)),
        0x61u16 => Some((0x40u8, false)),
        0x62u16 => Some((0x41u8, false)),
        0x63u16 => Some((0x3Du8, false)),
        0x64u16 => Some((0x42u8, false)),
        0x65u16 => Some((0x43u8, false)),
        0x67u16 => Some((0x57u8, false)),
        0x69u16 => Some((0x37u8, true)),
        0x6Bu16 => Some((0x46u8, false)),
        0x6Du16 => Some((0x44u8, false)),
        0x6Eu16 => Some((0x5Du8, true)),
        0x6Fu16 => Some((0x58u8, false)),
        0x72u16 => Some((0x52u8, true)),
        0x73u16 => Some((0x47u8, true)),
        0x74u16 => Some((0x49u8, true)),
        0x75u16 => Some((0x53u8, true)),
        0x76u16 => Some((0x3Eu8, false)),
        0x77u16 => Some((0x4Fu8, true)),
        0x78u16 => Some((0x3Cu8, false)),
        0x79u16 => Some((0x51u8, true)),
        0x7Au16 => Some((0x3Bu8, false)),
        0x7Bu16 => Some((0x4Bu8, true)),
        0x7Cu16 => Some((0x4Du8, true)),
        0x7Du16 => Some((0x50u8, true)),
        0x7Eu16 => Some((0x48u8, true)),
        _ => None,
    }
}

/// The key map is one to one and stays below 0x80: every keycode it gives
/// is below 0x80 and comes from exactly one (scancode, extended) pair, so
/// two distinct keys never give the same keycode.
pub proof fn lemma_keymap_injective(s1: u8, e1: bool, s2: u8, e2: bool)
    ensures
        (if e1 { extended_keycode(s1) } else { standard_keycode(s1) }) matches Some(k) ==> k < 0x80
            && key_of_keycode(k) == Some((s1, e1)),
        ({
            let k1 = if e1 { extended_keycode(s1) } else { standard_keycode(s1) };
            let k2 = if e2 { extended_keycode(s2) } else { standard_keycode(s2) };
            (s1, e1) != (s2, e2) && k1 is Some && k2 is Some ==> k1 != k2
        }),
{
    lemma_keycode_inverse(s1, e1);
    lemma_keycode_inverse(s2, e2);
}

proof fn lemma_keycode_inverse(s: u8, e: bool)
    ensures
        (if e { extended_keycode(s) } else { standard_keycode(s) }) matches Some(k) ==> k < 0x80
            && key_of_keycode(k) == Some((s, e)),
{
}

/// Converts an RDP scancode (set 1) to a macOS virtual keycode; `extended`
/// marks an extended key (right Ctrl, arrows, ...). Returns `None` for a
/// scancode without a known mapping.
pub fn scancode_to_keycode(scancode: u8, extended: bool) -> (keycode: Option<u16>)
    ensures
        keycode == if extended {
            extended_keycode(scancode)
        } else {
            standard_keycode(scancode)
        },
{
    if extended {
        match scancode {
            0x1Du8 => Some(0x3Eu16),
            0x38u8 => Some(0x36u16),
            0x5Bu8 => Some(0x3Au16),
            0x5Cu8 => Some(0x3Du16),
            0x48u8 => Some(0x7Eu16),
            0x50u8 => Some(0x7Du16),
            0x4Bu8 => Some(0x7Bu16),
            0x4Du8 => Some(0x7Cu16),
            0x47u8 => Some(0x73u16),
            0x4Fu8 => Some(0x77u16),
            0x49u8 => Some(0x74u16),
            0x51u8 => Some(0x79u16),
            0x52u8 => Some(0x72u16),
            0x53u8 => Some(0x75u16),
            0x35u8 => Some(0x4Bu16),
            0x1Cu8 => Some(0x4Cu16),
            0x37u8 => Some(0x69u16),
            0x5Du8 => Some(0x6Eu16),
            _ => None,
        }
    } else {
        match scancode {
            0x01u8 => Some(0x35u16),
            0x3Bu8 => Some(0x7Au16),
            0x3Cu8 => Some(0x78u16),
            0x3Du8 => Some(0x63u16),
            0x3Eu8 => Some(0x76u16),
            0x3Fu8 => Some(0x60u16),
            0x40u8 => Some(0x61u16),
            0x41u8 => Some(0x62u16),
            0x42u8 => Some(0x64u16),
            0x43u8 => Some(0x65u16),
            0x44u8 => Some(0x6Du16),
            0x57u8 => Some(0x67u16),
            0x58u8 => Some(0x6Fu16),
            0x29u8 => Some(0x32u16),
            0x02u8 => Some(0x12u16),
            0x03u8 => Some(0x13u16),
            0x04u8 => Some(0x14u16),
            0x05u8 => Some(0x15u16),
            0x06u8 => Some(0x17u16),
            0x07u8 => Some(0x16u16),
            0x08u8 => Some(0x1Au16),
            0x09u8 => Some(0x1Cu16),
            0x0Au8 => Some(0x19u16),
            0x0Bu8 => Some(0x1Du16),
            0x0Cu8 => Some(0x1Bu16),
            0x0Du8 => Some(0x18u16),
            0x0Eu8 => Some(0x33u16),
            0x0Fu8 => Some(0x30u16),
            0x10u8 => Some(0x0Cu16),
            0x11u8 => Some(0x0Du16),
            0x12u8 => Some(0x0Eu16),
            0x13u8 => Some(0x0Fu16),
            0x14u8 => Some(0x11u16),
            0x15u8 => Some(0x10u16),
            0x16u8 => Some(0x20u16),
            0x17u8 => Some(0x22u16),
            0x18u8 => Some(0x1Fu16),
            0x19u8 => Some(0x23u16),
            0x1Au8 => Some(0x21u16),
            0x1Bu8 => Some(0x1Eu16),
            0x2Bu8 => Some(0x2Au16),
            0x3Au8 => Some(0x39u16),
            0x1Eu8 => Some(0x00u16),
            0x1Fu8 => Some(0x01u16),
            0x20u8 => Some(0x02u16),
            0x21u8 => Some(0x03u16),
            0x22u8 => Some(0x05u16),
            0x23u8 => Some(0x04u16),
            0x24u8 => Some(0x26u16),
            0x25u8 => Some(0x28u16),
            0x26u8 => Some(0x25u16),
            0x27u8 => Some(0x29u16),
            0x28u8 => Some(0x27u16),
            0x1Cu8 => Some(0x24u16),
            0x2Au8 => Some(0x38u16),
            0x2Cu8 => Some(0x06u16),
            0x2Du8 => Some(0x07u16),
            0x2Eu8 => Some(0x08u16),
            0x2Fu8 => Some(0x09u16),
            0x30u8 => Some(0x0Bu16),
            0x31u8 => Some(0x2Du16),
            0x32u8 => Some(0x2Eu16),
            0x33u8 => Some(0x2Bu16),
            0x34u8 => Some(0x2Fu16),
            0x35u8 => Some(0x2Cu16),
            0x36u8 => Some(0x3Cu16),
            0x1Du8 => Some(0x3Bu16),
            0x38u8 => Some(0x37u16),
            0x39u8 => Some(0x31u16),
            0x52u8 => Some(0x52u16),
            0x4Fu8 => Some(0x53u16),
            0x50u8 => Some(0x54u16),
            0x51u8 => Some(0x55u16),
            0x4Bu8 => Some(0x56u16),
            0x4Cu8 => Some(0x57u16),
            0x4Du8 => Some(0x58u16),
            0x47u8 => Some(0x59u16),
            0x48u8 => Some(0x5Bu16),
            0x49u8 => Some(0x5Cu16),
            0x53u8 => Some(0x41u16),
            0x37u8 => Some(0x43u16),
            0x4Au8 => Some(0x4Eu16),
            0x4Eu8 => Some(0x45u16),
            0x45u8 => Some(0x47u16),
            0x46u8 => Some(0x6Bu16),
            _ => None,
        }
    }
}

} // verus!
