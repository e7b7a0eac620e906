//! The MAC's management register pair, `MACMIIAR` (control and address) and `MACMIIDR`
//! (data), together with the PHY registers that the management bus reaches.
//!
//! The block behaves as the hardware does: writing a control word whose busy bit is set
//! starts a transaction on the PHY register that the word addresses, and the busy bit reads
//! back as set for a fixed number of polls (the block's latency). The poll after those clears
//! it and completes the transaction: a write stores the data register in the PHY register,
//! a read loads the PHY register into the data register. Every access to the two registers
//! is recorded, in order, in the block's access log.
use vstd::prelude::*;

use crate::fields::{
    busy_bit, completed_word, phy_field, reg_field, write_bit, MIIAR_ADDR_MASK, MIIAR_BUSY,
    MIIAR_PHY_SHIFT, MIIAR_REG_SHIFT, MIIAR_WRITE,
};

verus! {

/// Number of PHY addresses on the bus, and of registers in each PHY.
pub const MIIM_ADDRESSES: usize = 32;

/// Number of PHY registers reachable over the bus.
pub const PHY_REGISTER_COUNT: usize = 1024;

/// The position of PHY register `reg` of PHY `phy` in the block's register file.
pub open spec fn slot(phy: u32, reg: u32) -> int {
    phy as int * 32 + reg as int
}

/// The position addressed by a request for `(phy, reg)`: each address keeps its low five bits.
pub open spec fn request_slot(phy: u8, reg: u8) -> int {
    slot((phy % 32) as u32, (reg % 32) as u32)
}

/// One access to the management registers, with the value read or written.
pub enum RegisterAccess {
    ControlRead(u32),
    ControlWrite(u32),
    DataRead(u16),
    DataWrite(u16),
}

/// Control and data registers of the management interface, and the PHYs behind them.
pub struct MacRegisterBlock {
    macmiiar: u32,
    macmiidr: u16,
    phy_regs: Vec<u16>,
    latency: u32,
    countdown: u32,
    polls: u64,
    log: Ghost<Seq<RegisterAccess>>,
}

impl MacRegisterBlock {
    /// Value of the control and address register.
    pub closed spec fn control(&self) -> u32 {
        self.macmiiar
    }

    /// Value of the data register.
    pub closed spec fn data(&self) -> u16 {
        self.macmiidr
    }

    /// The PHY registers, PHY by PHY: register `reg` of PHY `phy` is at `slot(phy, reg)`.
    pub closed spec fn phy_registers(&self) -> Seq<u16> {
        self.phy_regs@
    }

    /// Number of polls during which the busy bit stays set after a transaction starts.
    pub closed spec fn latency(&self) -> nat {
        self.latency as nat
    }

    /// Polls of the control register since the last transaction started. The count stops at
    /// `u64::MAX`, far beyond the polls of any transaction.
    pub closed spec fn polls(&self) -> nat {
        self.polls as nat
    }

    /// Polls left during which the busy bit of the transaction in flight stays set.
    pub closed spec fn pending(&self) -> nat {
        self.countdown as nat
    }

    /// Every access made to the control and data registers, oldest first.
    pub closed spec fn accesses(&self) -> Seq<RegisterAccess> {
        self.log@
    }

    /// Internal consistency, which also holds while a transaction is in flight.
    pub open spec fn inv(&self) -> bool {
        &&& self.phy_registers().len() == 1024
        &&& self.pending() > 0 ==> busy_bit(self.control())
        &&& self.latency() <= u32::MAX
    }

    /// A consistent block with no transaction in flight.
    pub open spec fn wf(&self) -> bool {
        &&& self.inv()
        &&& self.pending() == 0
        &&& !busy_bit(self.control())
    }

    /// A block whose PHY registers all read as zero and whose busy bit stays set for
    /// `latency` polls after each transaction starts.
    pub fn new(latency: u32) -> (r: Self)
        ensures
            r.wf(),
            r.control() == 0,
            r.data() == 0,
            r.phy_registers() == Seq::new(1024, |i: int| 0u16),
            r.latency() == latency,
            r.polls() == 0,
            r.accesses() == Seq::<RegisterAccess>::empty(),
    {
        let phy_regs = vec![0u16; PHY_REGISTER_COUNT];
        let r = MacRegisterBlock {
            macmiiar: 0,
            macmiidr: 0,
            phy_regs,
            latency,
            countdown: 0,
            polls: 0,
            log: Ghost(Seq::empty()),
        };
        assert(!busy_bit(0u32)) by (bit_vector);
        assert(r.phy_registers() =~= Seq::new(1024, |i: int| 0u16));
        r
    }

    /// Value of the control and address register, as a debugger sees it: not an access on
    /// the bus, and not recorded.
    pub fn control_value(&self) -> (r: u32)
        ensures
            r == self.control(),
    {
        self.macmiiar
    }

    /// Value of the data register, as a debugger sees it: not an access on the bus, and not
    /// recorded.
    pub fn data_value(&self) -> (r: u16)
        ensures
            r == self.data(),
    {
        self.macmiidr
    }

    /// Polls of the control register since the last transaction started.
    pub fn poll_count(&self) -> (r: u64)
        ensures
            r == self.polls(),
    {
        self.polls
    }

    /// Value of register `reg` of PHY `phy`, each address taken modulo 32.
    pub fn phy_register(&self, phy: u8, reg: u8) -> (r: u16)
        requires
            self.wf(),
        ensures
            r == self.phy_registers()[request_slot(phy, reg)],
    {
        let i = ((phy as usize) % MIIM_ADDRESSES) * MIIM_ADDRESSES + (reg as usize)
            % MIIM_ADDRESSES;
        self.phy_regs[i]
    }

    /// Sets register `reg` of PHY `phy`, each address taken modulo 32, as the PHY itself
    /// would (a status bit changing, say); no bus transaction is made.
    pub fn set_phy_register(&mut self, phy: u8, reg: u8, value: u16)
        requires
            old(self).wf(),
        ensures
            final(self).wf(),
            final(self).phy_registers() == old(self).phy_registers().update(
                request_slot(phy, reg),
                value,
            ),
            final(self).control() == old(self).control(),
            final(self).data() == old(self).data(),
            final(self).latency() == old(self).latency(),
            final(self).polls() == old(self).polls(),
            final(self).accesses() == old(self).accesses(),
    {
        let i = ((phy as usize) % MIIM_ADDRESSES) * MIIM_ADDRESSES + (reg as usize)
            % MIIM_ADDRESSES;
        self.phy_regs.set(i, value);
    }

    /// Reads the control register once, as a busy poll does. While a transaction is in
    /// flight this uses up one of its busy polls; once none is left, the read completes the
    /// transaction and the busy bit reads as clear.
    pub(crate) fn read_control(&mut self) -> (r: u32)
        requires
            old(self).inv(),
        ensures
            final(self).inv(),
            r == final(self).control(),
            final(self).accesses() == old(self).accesses().push(RegisterAccess::ControlRead(r)),
            final(self).latency() == old(self).latency(),
            old(self).polls() < u64::MAX ==> final(self).polls() == old(self).polls() + 1,
            old(self).pending() > 0 ==> {
                &&& final(self).pending() == old(self).pending() - 1
                &&& final(self).control() == old(self).control()
                &&& final(self).data() == old(self).data()
                &&& final(self).phy_registers() == old(self).phy_registers()
            },
            old(self).pending() == 0 && !busy_bit(old(self).control()) ==> {
                &&& final(self).pending() == 0
                &&& final(self).control() == old(self).control()
                &&& final(self).data() == old(self).data()
                &&& final(self).phy_registers() == old(self).phy_registers()
            },
            old(self).pending() == 0 && busy_bit(old(self).control()) ==> {
                &&& final(self).pending() == 0
                &&& final(self).control() == completed_word(old(self).control())
                &&& completion(*old(self), *final(self), old(self).control())
            },
    {
        if self.polls < u64::MAX {
            self.polls = self.polls + 1;
        }
        if self.countdown > 0 {
            self.countdown = self.countdown - 1;
        } else if self.macmiiar & MIIAR_BUSY != 0 {
            let word = self.macmiiar;
            let phy = (word >> MIIAR_PHY_SHIFT) & MIIAR_ADDR_MASK;
            let reg = (word >> MIIAR_REG_SHIFT) & MIIAR_ADDR_MASK;
            assert(((word >> 11u32) & 0x1fu32) < 32) by (bit_vector);
            assert(((word >> 6u32) & 0x1fu32) < 32) by (bit_vector);
            let i = (phy as usize) * MIIM_ADDRESSES + reg as usize;
            if word & MIIAR_WRITE != 0 {
                self.phy_regs.set(i, self.macmiidr);
            } else {
                self.macmiidr = self.phy_regs[i];
            }
            self.macmiiar = word & !MIIAR_BUSY;
        }
        let r = self.macmiiar;
        self.log = Ghost(self.log@.push(RegisterAccess::ControlRead(r)));
        r
    }

    /// Reads the data register.
    pub(crate) fn read_data(&mut self) -> (r: u16)
        requires
            old(self).inv(),
        ensures
            final(self).inv(),
            r == old(self).data(),
            final(self).accesses() == old(self).accesses().push(RegisterAccess::DataRead(r)),
            final(self).data() == old(self).data(),
            final(self).control() == old(self).control(),
            final(self).phy_registers() == old(self).phy_registers(),
            final(self).latency() == old(self).latency(),
            final(self).pending() == old(self).pending(),
            final(self).polls() == old(self).polls(),
    {
        let r = self.macmiidr;
        self.log = Ghost(self.log@.push(RegisterAccess::DataRead(r)));
        r
    }

    /// Writes the data register.
    pub(crate) fn write_data(&mut self, value: u16)
        requires
            old(self).inv(),
        ensures
            final(self).inv(),
            final(self).data() == value,
            final(self).accesses() == old(self).accesses().push(
                RegisterAccess::DataWrite(value),
            ),
            final(self).control() == old(self).control(),
            final(self).phy_registers() == old(self).phy_registers(),
            final(self).latency() == old(self).latency(),
            final(self).pending() == old(self).pending(),
            final(self).polls() == old(self).polls(),
    {
        self.macmiidr = value;
        self.log = Ghost(self.log@.push(RegisterAccess::DataWrite(value)));
    }

    /// Writes the control register while no transaction is in flight. A word with its busy
    /// bit set starts a transaction on the PHY register that its address fields select.
    pub(crate) fn write_control(&mut self, word: u32)
        requires
            old(self).inv(),
            !busy_bit(old(self).control()),
        ensures
            final(self).inv(),
            final(self).control() == word,
            final(self).accesses() == old(self).accesses().push(
                RegisterAccess::ControlWrite(word),
            ),
            final(self).data() == old(self).data(),
            final(self).phy_registers() == old(self).phy_registers(),
            final(self).latency() == old(self).latency(),
            busy_bit(word) ==> {
                &&& final(self).pending() == old(self).latency()
                &&& final(self).polls() == 0
            },
            !busy_bit(word) ==> {
                &&& final(self).pending() == 0
                &&& final(self).polls() == old(self).polls()
            },
    {
        if word & MIIAR_BUSY != 0 {
            self.countdown = self.latency;
            self.polls = 0;
        }
        self.macmiiar = word;
        self.log = Ghost(self.log@.push(RegisterAccess::ControlWrite(word)));
    }
}

/// What completing the transaction that control word `word` asks for does to the data
/// register and the PHY registers: a write stores the data register in the addressed PHY
/// register, a read loads that PHY register into the data register.
pub open spec fn completion(before: MacRegisterBlock, after: MacRegisterBlock, word: u32) -> bool {
    if write_bit(word) {
        &&& after.phy_registers() == before.phy_registers().update(
            slot(phy_field(word), reg_field(word)),
            before.data(),
        )
        &&& after.data() == before.data()
    } else {
        &&& after.phy_registers() == before.phy_registers()
        &&& after.data() == before.phy_registers()[slot(phy_field(word), reg_field(word))]
    }
}

} // verus!
