//! Layout of the MIIM address register (`MACMIIAR`).
use vstd::prelude::*;

verus! {

/// Busy bit: set by software to start a transaction, cleared by hardware when it is done.
pub const MIIAR_BUSY: u32 = 0x1;

/// Direction bit: set for a write transaction, clear for a read.
pub const MIIAR_WRITE: u32 = 0x2;

/// Bit offset of the 5-bit PHY address field.
pub const MIIAR_PHY_SHIFT: u32 = 11;

/// Bit offset of the 5-bit PHY register address field.
pub const MIIAR_REG_SHIFT: u32 = 6;

/// Width mask of both address fields.
pub const MIIAR_ADDR_MASK: u32 = 0x1f;

/// Bits that a request replaces: both address fields, the direction bit and the busy bit.
pub const MIIAR_REQUEST_BITS: u32 = 0xffc3;

/// The PHY address held in a control word.
pub open spec fn phy_field(word: u32) -> u32 {
    (word >> 11u32) & 0x1fu32
}

/// The register address held in a control word.
pub open spec fn reg_field(word: u32) -> u32 {
    (word >> 6u32) & 0x1fu32
}

/// Whether a control word asks for a write.
pub open spec fn write_bit(word: u32) -> bool {
    word & 0x2u32 != 0
}

/// Whether a control word has its busy bit set.
pub open spec fn busy_bit(word: u32) -> bool {
    word & 0x1u32 != 0
}

/// The control word that starts a transaction on `(phy, reg)`, built from the register's
/// current value: the address fields take the low five bits of each address, the direction
/// bit is set for a write, the busy bit is set, and every other bit (the clock range among
/// them) keeps its current value.
pub open spec fn request_word(control: u32, phy: u8, reg: u8, write: bool) -> u32 {
    (control & !0xffc3u32) | (((phy as u32) & 0x1fu32) << 11u32) | (((reg as u32) & 0x1fu32)
        << 6u32) | (if write {
        0x2u32
    } else {
        0u32
    }) | 0x1u32
}

/// A control word with its busy bit cleared, as the hardware leaves it after a transaction.
pub open spec fn completed_word(word: u32) -> u32 {
    word & !0x1u32
}

/// Computes the control word that starts a transaction on `(phy, reg)`.
pub fn encode_request(control: u32, phy: u8, reg: u8, write: bool) -> (r: u32)
    ensures
        r == request_word(control, phy, reg, write),
{
    let dir: u32 = if write {
        MIIAR_WRITE
    } else {
        0
    };
    (control & !MIIAR_REQUEST_BITS) | (((phy as u32) & MIIAR_ADDR_MASK) << MIIAR_PHY_SHIFT) | (((
    reg as u32) & MIIAR_ADDR_MASK) << MIIAR_REG_SHIFT) | dir | MIIAR_BUSY
}

/// Every field of a request word holds what was asked for: the PHY and register address
/// fields hold the addresses truncated to five bits, the direction bit tells a write from a
/// read, the busy bit is set, and the bits outside the request (such as the clock range)
/// are those of the register before the request.
pub proof fn lemma_request_fields(control: u32, phy: u8, reg: u8, write: bool)
    ensures
        phy_field(request_word(control, phy, reg, write)) == (phy % 32) as u32,
        reg_field(request_word(control, phy, reg, write)) == (reg % 32) as u32,
        write_bit(request_word(control, phy, reg, write)) == write,
        busy_bit(request_word(control, phy, reg, write)),
        request_word(control, phy, reg, write) & !0xffc3u32 == control & !0xffc3u32,
        !busy_bit(completed_word(request_word(control, phy, reg, write))),
{
    let w = request_word(control, phy, reg, write);
    let p = phy as u32;
    let g = reg as u32;
    let d: u32 = if write { 2 } else { 0 };
    assert(w == (control & !0xffc3u32) | ((p & 0x1fu32) << 11u32) | ((g & 0x1fu32) << 6u32) | d
        | 0x1u32);
    assert(p < 256 && g < 256);
    assert(d == 0 || d == 2);
    assert(((control & !0xffc3u32) | ((p & 0x1fu32) << 11u32) | ((g & 0x1fu32) << 6u32) | d
        | 0x1u32) >> 11u32 & 0x1fu32 == p % 32) by (bit_vector)
        requires
            p < 256,
            d == 0 || d == 2,
    ;
    assert(((control & !0xffc3u32) | ((p & 0x1fu32) << 11u32) | ((g & 0x1fu32) << 6u32) | d
        | 0x1u32) >> 6u32 & 0x1fu32 == g % 32) by (bit_vector)
        requires
            g < 256,
            d == 0 || d == 2,
    ;
    assert((((control & !0xffc3u32) | ((p & 0x1fu32) << 11u32) | ((g & 0x1fu32) << 6u32) | d
        | 0x1u32) & 0x2u32 != 0) == (d == 2)) by (bit_vector)
        requires
            d == 0 || d == 2,
    ;
    assert(((control & !0xffc3u32) | ((p & 0x1fu32) << 11u32) | ((g & 0x1fu32) << 6u32) | d
        | 0x1u32) & 0x1u32 != 0) by (bit_vector);
    assert(((control & !0xffc3u32) | ((p & 0x1fu32) << 11u32) | ((g & 0x1fu32) << 6u32) | d
        | 0x1u32) & !0xffc3u32 == control & !0xffc3u32) by (bit_vector)
        requires
            d == 0 || d == 2,
    ;
    assert((w & !0x1u32) & 0x1u32 == 0) by (bit_vector);
}

} // verus!
