//! The MIIM transaction engine: field encoding, triggering and busy polling.
use vstd::prelude::*;

use crate::fields::{
    busy_bit, completed_word, encode_request, lemma_request_fields, phy_field, reg_field,
    request_word, write_bit, MIIAR_BUSY,
};
use crate::registers::{completion, request_slot, MacRegisterBlock, RegisterAccess};

verus! {

/// The polls of a transaction whose start word is `word`: `latency` polls that see the busy
/// bit set, then the one that sees it clear.
pub open spec fn busy_polls(word: u32, latency: nat) -> Seq<RegisterAccess> {
    Seq::new(latency, |i: int| RegisterAccess::ControlRead(word)).push(
        RegisterAccess::ControlRead(completed_word(word)),
    )
}

/// What a read of register `reg` of PHY `phy` that returned `value` leaves behind: the value
/// is that of the addressed PHY register, the data register holds it, the control register
/// holds the request with its busy bit cleared, and the PHYs are untouched. The registers
/// were accessed in this order and no other way: the control register read for its other
/// bits, the start word written, the busy bit polled once per poll of latency and once more
/// to see it clear, and the data register read.
pub open spec fn read_outcome(
    before: MacRegisterBlock,
    after: MacRegisterBlock,
    phy: u8,
    reg: u8,
    value: u16,
) -> bool {
    let start = request_word(before.control(), phy, reg, false);
    &&& after.wf()
    &&& value == before.phy_registers()[request_slot(phy, reg)]
    &&& after.data() == value
    &&& after.control() == completed_word(start)
    &&& after.phy_registers() == before.phy_registers()
    &&& after.latency() == before.latency()
    &&& after.polls() == before.latency() + 1
    &&& after.accesses() == before.accesses() + seq![
        RegisterAccess::ControlRead(before.control()),
        RegisterAccess::ControlWrite(start),
    ] + busy_polls(start, before.latency()) + seq![RegisterAccess::DataRead(value)]
}

/// What a write of `value` to register `reg` of PHY `phy` leaves behind: the addressed PHY
/// register holds the value and no other changes, the data register holds the value, and
/// the control register holds the request with its busy bit cleared. The registers were
/// accessed in this order and no other way: the data register written, the control register
/// read for its other bits, the start word written, and the busy bit polled once per poll of
/// latency and once more to see it clear.
pub open spec fn write_outcome(
    before: MacRegisterBlock,
    after: MacRegisterBlock,
    phy: u8,
    reg: u8,
    value: u16,
) -> bool {
    let start = request_word(before.control(), phy, reg, true);
    &&& after.wf()
    &&& after.phy_registers() == before.phy_registers().update(request_slot(phy, reg), value)
    &&& after.data() == value
    &&& after.control() == completed_word(start)
    &&& after.latency() == before.latency()
    &&& after.polls() == before.latency() + 1
    &&& after.accesses() == before.accesses() + seq![
        RegisterAccess::DataWrite(value),
        RegisterAccess::ControlRead(before.control()),
        RegisterAccess::ControlWrite(start),
    ] + busy_polls(start, before.latency())
}

/// Decides from a polled control word whether the transaction has completed: it has once
/// the busy bit reads as clear.
pub fn transaction_done(word: u32) -> (r: bool)
    ensures
        r == !busy_bit(word),
{
    word & MIIAR_BUSY == 0
}

/// A management interface over which PHY registers can be read and written, as PHY
/// drivers consume it.
pub trait Miim {
    /// The registers through which the interface reaches the bus.
    spec fn management_registers(&self) -> MacRegisterBlock;

    /// Reads register `reg` of PHY `phy`.
    fn read(&mut self, phy: u8, reg: u8) -> (r: u16)
        requires
            old(self).management_registers().wf(),
        ensures
            read_outcome(
                old(self).management_registers(),
                final(self).management_registers(),
                phy,
                reg,
                r,
            ),
    ;

    /// Writes `data` to register `reg` of PHY `phy`.
    fn write(&mut self, phy: u8, reg: u8, data: u16)
        requires
            old(self).management_registers().wf(),
        ensures
            write_outcome(
                old(self).management_registers(),
                final(self).management_registers(),
                phy,
                reg,
                data,
            ),
    ;
}

/// Polls the control register until its busy bit reads as clear, and stops at the first
/// poll that sees it clear. That this happens at all comes from the register block, whose
/// busy bit clears after its latency; the loop itself has no bound of its own.
fn wait_until_idle(regs: &mut MacRegisterBlock)
    requires
        old(regs).inv(),
        busy_bit(old(regs).control()),
        old(regs).pending() == old(regs).latency(),
        old(regs).polls() == 0,
    ensures
        final(regs).wf(),
        final(regs).control() == completed_word(old(regs).control()),
        completion(*old(regs), *final(regs), old(regs).control()),
        final(regs).latency() == old(regs).latency(),
        final(regs).polls() == old(regs).latency() + 1,
        final(regs).accesses() == old(regs).accesses() + busy_polls(
            old(regs).control(),
            old(regs).latency(),
        ),
{
    let ghost start = regs.control();
    loop
        invariant_except_break
            busy_bit(regs.control()),
            regs.control() == start,
            regs.data() == old(regs).data(),
            regs.phy_registers() == old(regs).phy_registers(),
            regs.polls() + regs.pending() == regs.latency(),
            regs.accesses() == old(regs).accesses() + Seq::new(
                regs.polls(),
                |i: int| RegisterAccess::ControlRead(start),
            ),
        invariant
            regs.inv(),
            regs.latency() == old(regs).latency(),
            start == old(regs).control(),
        ensures
            regs.control() == completed_word(start),
            completion(*old(regs), *regs, start),
            regs.pending() == 0,
            regs.polls() == regs.latency() + 1,
            regs.accesses() == old(regs).accesses() + busy_polls(start, regs.latency()),
        decreases regs.pending(),
    {
        let ghost before = *regs;
        let word = regs.read_control();
        proof {
            assert(!busy_bit(start & !1u32)) by (bit_vector);
        }
        if transaction_done(word) {
            assert(regs.accesses() =~= old(regs).accesses() + busy_polls(start, regs.latency()));
            break ;
        }
        assert(regs.accesses() =~= old(regs).accesses() + Seq::new(
            regs.polls(),
            |i: int| RegisterAccess::ControlRead(start),
        ));
    }
    proof {
        assert(!busy_bit(start & !1u32)) by (bit_vector);
    }
}

/// Reads register `reg` of PHY `phy`. Each address keeps its low five bits; the hardware
/// drops the rest. The call returns once the busy bit reads as clear, which the register
/// block guarantees after its latency.
pub fn miim_read(regs: &mut MacRegisterBlock, phy: u8, reg: u8) -> (r: u16)
    requires
        old(regs).wf(),
    ensures
        read_outcome(*old(regs), *final(regs), phy, reg, r),
{
    let current = regs.read_control();
    let request = encode_request(current, phy, reg, false);
    proof {
        lemma_request_fields(current, phy, reg, false);
    }
    regs.write_control(request);
    wait_until_idle(regs);
    let r = regs.read_data();
    assert(regs.accesses() =~= old(regs).accesses() + seq![
        RegisterAccess::ControlRead(old(regs).control()),
        RegisterAccess::ControlWrite(request),
    ] + busy_polls(request, old(regs).latency()) + seq![RegisterAccess::DataRead(r)]);
    r
}

/// Writes `data` to register `reg` of PHY `phy`. The data register is filled before the
/// transaction starts. Each address keeps its low five bits; the hardware drops the rest.
/// The call returns once the busy bit reads as clear, which the register block guarantees
/// after its latency.
pub fn miim_write(regs: &mut MacRegisterBlock, phy: u8, reg: u8, data: u16)
    requires
        old(regs).wf(),
    ensures
        write_outcome(*old(regs), *final(regs), phy, reg, data),
{
    regs.write_data(data);
    let current = regs.read_control();
    let request = encode_request(current, phy, reg, true);
    proof {
        lemma_request_fields(current, phy, reg, true);
    }
    regs.write_control(request);
    wait_until_idle(regs);
    assert(regs.accesses() =~= old(regs).accesses() + seq![
        RegisterAccess::DataWrite(data),
        RegisterAccess::ControlRead(old(regs).control()),
        RegisterAccess::ControlWrite(request),
    ] + busy_polls(request, old(regs).latency()));
}

/// Writing a value to a PHY register and then reading that register returns the value.
pub proof fn lemma_write_then_read(
    s0: MacRegisterBlock,
    s1: MacRegisterBlock,
    s2: MacRegisterBlock,
    phy: u8,
    reg: u8,
    value: u16,
    r: u16,
)
    requires
        s0.wf(),
        write_outcome(s0, s1, phy, reg, value),
        read_outcome(s1, s2, phy, reg, r),
    ensures
        r == value,
{
    lemma_request_slot_bounds(phy, reg);
}

/// A request slot lies inside the register file.
proof fn lemma_request_slot_bounds(phy: u8, reg: u8)
    ensures
        0 <= request_slot(phy, reg) < 1024,
{
    let p = (phy % 32) as int;
    let g = (reg % 32) as int;
    assert(0 <= p * 32 + g < 1024) by (nonlinear_arith)
        requires
            0 <= p < 32,
            0 <= g < 32,
    ;
}

/// After a transaction the control register shows what was asked for: the address fields
/// hold the addresses truncated to five bits, the direction bit is clear after a read and
/// set after a write, and the busy bit is clear.
pub proof fn lemma_completed_fields(
    before: MacRegisterBlock,
    after: MacRegisterBlock,
    phy: u8,
    reg: u8,
    value: u16,
)
    ensures
        read_outcome(before, after, phy, reg, value) || write_outcome(
            before,
            after,
            phy,
            reg,
            value,
        ) ==> {
            &&& phy_field(after.control()) == (phy % 32) as u32
            &&& reg_field(after.control()) == (reg % 32) as u32
            &&& !busy_bit(after.control())
        },
        read_outcome(before, after, phy, reg, value) ==> !write_bit(after.control()),
        write_outcome(before, after, phy, reg, value) ==> write_bit(after.control()),
{
    let c = before.control();
    lemma_request_fields(c, phy, reg, false);
    lemma_request_fields(c, phy, reg, true);
    let wr = request_word(c, phy, reg, false);
    let ww = request_word(c, phy, reg, true);
    lemma_completed_keeps_fields(wr);
    lemma_completed_keeps_fields(ww);
}

/// Clearing the busy bit leaves the address fields and the direction bit as they were.
proof fn lemma_completed_keeps_fields(word: u32)
    ensures
        phy_field(completed_word(word)) == phy_field(word),
        reg_field(completed_word(word)) == reg_field(word),
        write_bit(completed_word(word)) == write_bit(word),
        !busy_bit(completed_word(word)),
{
    assert(((word & !1u32) >> 11u32) & 0x1fu32 == (word >> 11u32) & 0x1fu32) by (bit_vector);
    assert(((word & !1u32) >> 6u32) & 0x1fu32 == (word >> 6u32) & 0x1fu32) by (bit_vector);
    assert(((word & !1u32) & 2u32 != 0) == (word & 2u32 != 0)) by (bit_vector);
    assert((word & !1u32) & 1u32 == 0) by (bit_vector);
}

/// Addresses wrap at 32: a request for PHY `phy` and register `reg` is the same request as
/// one for `phy % 32` and `reg % 32`, so a write to PHY 33 is a write to PHY 1.
pub proof fn lemma_address_truncation(control: u32, phy: u8, reg: u8, write: bool)
    ensures
        request_word(control, phy, reg, write) == request_word(
            control,
            (phy % 32) as u8,
            (reg % 32) as u8,
            write,
        ),
        request_slot(phy, reg) == request_slot((phy % 32) as u8, (reg % 32) as u8),
{
    let p = phy as u32;
    let g = reg as u32;
    assert((p & 0x1fu32) == ((p % 32) & 0x1fu32)) by (bit_vector);
    assert((g & 0x1fu32) == ((g % 32) & 0x1fu32)) by (bit_vector);
    assert(((phy % 32) as u8) as u32 == p % 32);
    assert(((reg % 32) as u8) as u32 == g % 32);
}

/// Reads and writes see only the low five bits of each address: every outcome of a
/// transaction on `(phy, reg)` is an outcome of the same transaction on
/// `(phy % 32, reg % 32)`, and the other way round.
pub proof fn lemma_transactions_truncate(
    before: MacRegisterBlock,
    after: MacRegisterBlock,
    phy: u8,
    reg: u8,
    value: u16,
)
    ensures
        read_outcome(before, after, phy, reg, value) == read_outcome(
            before,
            after,
            (phy % 32) as u8,
            (reg % 32) as u8,
            value,
        ),
        write_outcome(before, after, phy, reg, value) == write_outcome(
            before,
            after,
            (phy % 32) as u8,
            (reg % 32) as u8,
            value,
        ),
{
    lemma_address_truncation(before.control(), phy, reg, false);
    lemma_address_truncation(before.control(), phy, reg, true);
}

} // verus!
