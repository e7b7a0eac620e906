//! Ethernet MAC handles and the sessions through which they reach the management bus.
use vstd::prelude::*;

use crate::miim::{miim_read, miim_write, read_outcome, write_outcome, Miim};
use crate::pins::{MdcPin, MdioPin};
use crate::registers::MacRegisterBlock;

verus! {

/// Ethernet media access control (MAC) that does not own its MDIO and MDC pins.
pub struct EthernetMAC {
    pub(crate) eth_mac: MacRegisterBlock,
}

impl View for EthernetMAC {
    type V = MacRegisterBlock;

    closed spec fn view(&self) -> MacRegisterBlock {
        self.eth_mac
    }
}

/// A session on the management bus: it holds the MAC's registers and both management
/// pins exclusively for as long as it lives, so no other session on the same pins can
/// exist meanwhile.
pub struct Stm32Miim<'eth, 'pins, Mdio, Mdc> {
    /// The MAC's management registers.
    pub regs: &'eth mut MacRegisterBlock,
    /// The management data pin.
    pub mdio: &'pins mut Mdio,
    /// The management clock pin.
    pub mdc: &'pins mut Mdc,
}

impl<'eth, 'pins, Mdio, Mdc> Stm32Miim<'eth, 'pins, Mdio, Mdc> where Mdio: MdioPin, Mdc: MdcPin {
    /// Reads register `reg` of PHY `phy`.
    pub fn read(&mut self, phy: u8, reg: u8) -> (r: u16)
        requires
            (*old(self).regs).wf(),
        ensures
            read_outcome(*old(self).regs, *final(self).regs, phy, reg, r),
            *final(final(self).regs) == *final(old(self).regs),
            final(self).mdio == old(self).mdio,
            final(self).mdc == old(self).mdc,
    {
        miim_read(self.regs, phy, reg)
    }

    /// Writes `data` to register `reg` of PHY `phy`.
    pub fn write(&mut self, phy: u8, reg: u8, data: u16)
        requires
            (*old(self).regs).wf(),
        ensures
            write_outcome(*old(self).regs, *final(self).regs, phy, reg, data),
            *final(final(self).regs) == *final(old(self).regs),
            final(self).mdio == old(self).mdio,
            final(self).mdc == old(self).mdc,
    {
        miim_write(self.regs, phy, reg, data)
    }
}

impl<'eth, 'pins, Mdio, Mdc> Miim for Stm32Miim<'eth, 'pins, Mdio, Mdc> where
    Mdio: MdioPin,
    Mdc: MdcPin,
{
    open spec fn management_registers(&self) -> MacRegisterBlock {
        *self.regs
    }

    fn read(&mut self, phy: u8, reg: u8) -> (r: u16) {
        miim_read(self.regs, phy, reg)
    }

    fn write(&mut self, phy: u8, reg: u8, data: u16) {
        miim_write(self.regs, phy, reg, data)
    }
}

impl EthernetMAC {
    /// Create a new EthernetMAC that does not own its MDIO and MDC pins.
    pub fn new(eth_mac: MacRegisterBlock) -> (r: Self)
        ensures
            r@ == eth_mac,
    {
        Self { eth_mac }
    }

    /// The MAC's management registers.
    pub fn registers(&self) -> (r: &MacRegisterBlock)
        ensures
            *r == self@,
    {
        &self.eth_mac
    }

    /// Borrow access to the MAC's management interface.
    ///
    /// Allows for controlling and monitoring any PHYs that may be accessible via the MDIO/MDC
    /// pins. Exclusive access to both pins is required, so that they are not used elsewhere
    /// for the duration of the session.
    pub fn smi<'eth, 'pins, Mdio, Mdc>(
        &'eth mut self,
        mdio: &'pins mut Mdio,
        mdc: &'pins mut Mdc,
    ) -> (r: Stm32Miim<'eth, 'pins, Mdio, Mdc>) where Mdio: MdioPin, Mdc: MdcPin
        ensures
            *r.regs == old(self)@,
            final(self)@ == *final(r.regs),
            *r.mdio == *old(mdio),
            *final(mdio) == *final(r.mdio),
            *r.mdc == *old(mdc),
            *final(mdc) == *final(r.mdc),
    {
        Stm32Miim { regs: &mut self.eth_mac, mdio, mdc }
    }

    /// Turn this [`EthernetMAC`] into an [`EthernetMACWithMiim`] that owns both pins.
    pub fn with_smi<MDIO, MDC>(self, mdio: MDIO, mdc: MDC) -> (r: EthernetMACWithMiim<MDIO, MDC>)
        where
            MDIO: MdioPin,
            MDC: MdcPin,
        ensures
            r == attach_pins(self, mdio, mdc),
            r@ == self@,
            r.mdio_pin() == mdio,
            r.mdc_pin() == mdc,
    {
        EthernetMACWithMiim { eth_mac: self.eth_mac, mdio, mdc }
    }
}

/// Ethernet media access control (MAC) with owned management pins.
///
/// This version of the struct owns its MDIO and MDC pins, allowing it to be used directly
/// instead of through a [`Stm32Miim`] session.
pub struct EthernetMACWithMiim<MDIO, MDC> where MDIO: MdioPin, MDC: MdcPin {
    pub(crate) eth_mac: MacRegisterBlock,
    mdio: MDIO,
    mdc: MDC,
}

impl<MDIO, MDC> View for EthernetMACWithMiim<MDIO, MDC> where MDIO: MdioPin, MDC: MdcPin {
    type V = MacRegisterBlock;

    closed spec fn view(&self) -> MacRegisterBlock {
        self.eth_mac
    }
}

/// The handle that owns `mdio` and `mdc` beside the registers of `mac`.
pub closed spec fn attach_pins<MDIO, MDC>(
    mac: EthernetMAC,
    mdio: MDIO,
    mdc: MDC,
) -> EthernetMACWithMiim<MDIO, MDC> where MDIO: MdioPin, MDC: MdcPin {
    EthernetMACWithMiim { eth_mac: mac.eth_mac, mdio, mdc }
}

/// The borrowing handle and the two pins that `mac` holds.
pub closed spec fn detach_pins<MDIO, MDC>(
    mac: EthernetMACWithMiim<MDIO, MDC>,
) -> (EthernetMAC, MDIO, MDC) where MDIO: MdioPin, MDC: MdcPin {
    (EthernetMAC { eth_mac: mac.eth_mac }, mac.mdio, mac.mdc)
}

/// Releasing the pins of a handle that was just given them returns the original handle and
/// the same two pins.
pub proof fn lemma_detach_undoes_attach<MDIO, MDC>(mac: EthernetMAC, mdio: MDIO, mdc: MDC) where
    MDIO: MdioPin,
    MDC: MdcPin,
    ensures
        detach_pins(attach_pins(mac, mdio, mdc)) == (mac, mdio, mdc),
{
}

/// Giving a handle back the pins that were just released from it restores the handle.
pub proof fn lemma_attach_undoes_detach<MDIO, MDC>(mac: EthernetMACWithMiim<MDIO, MDC>) where
    MDIO: MdioPin,
    MDC: MdcPin,
    ensures
        attach_pins(detach_pins(mac).0, detach_pins(mac).1, detach_pins(mac).2) == mac,
{
}

impl<MDIO, MDC> EthernetMACWithMiim<MDIO, MDC> where MDIO: MdioPin, MDC: MdcPin {
    /// The management data pin that the handle owns.
    pub closed spec fn mdio_pin(&self) -> MDIO {
        self.mdio
    }

    /// The management clock pin that the handle owns.
    pub closed spec fn mdc_pin(&self) -> MDC {
        self.mdc
    }

    /// Create a new EthernetMAC with owned MDIO and MDC pins.
    pub fn new(eth_mac: MacRegisterBlock, mdio: MDIO, mdc: MDC) -> (r: Self)
        ensures
            r@ == eth_mac,
            r.mdio_pin() == mdio,
            r.mdc_pin() == mdc,
    {
        Self { eth_mac, mdio, mdc }
    }

    /// The MAC's management registers.
    pub fn registers(&self) -> (r: &MacRegisterBlock)
        ensures
            *r == self@,
    {
        &self.eth_mac
    }

    /// Release the owned MDIO and MDC pins, and return an EthernetMAC that has to borrow
    /// them.
    pub fn release_pins(self) -> (r: (EthernetMAC, MDIO, MDC))
        ensures
            r == detach_pins(self),
            r.0@ == self@,
            r.1 == self.mdio_pin(),
            r.2 == self.mdc_pin(),
    {
        (EthernetMAC { eth_mac: self.eth_mac }, self.mdio, self.mdc)
    }

    /// Reads register `reg` of PHY `phy`.
    pub fn read(&mut self, phy: u8, reg: u8) -> (r: u16)
        requires
            old(self)@.wf(),
        ensures
            read_outcome(old(self)@, final(self)@, phy, reg, r),
            final(self).mdio_pin() == old(self).mdio_pin(),
            final(self).mdc_pin() == old(self).mdc_pin(),
    {
        miim_read(&mut self.eth_mac, phy, reg)
    }

    /// Writes `data` to register `reg` of PHY `phy`.
    pub fn write(&mut self, phy: u8, reg: u8, data: u16)
        requires
            old(self)@.wf(),
        ensures
            write_outcome(old(self)@, final(self)@, phy, reg, data),
            final(self).mdio_pin() == old(self).mdio_pin(),
            final(self).mdc_pin() == old(self).mdc_pin(),
    {
        miim_write(&mut self.eth_mac, phy, reg, data)
    }
}

impl<MDIO, MDC> Miim for EthernetMACWithMiim<MDIO, MDC> where MDIO: MdioPin, MDC: MdcPin {
    open spec fn management_registers(&self) -> MacRegisterBlock {
        self@
    }

    fn read(&mut self, phy: u8, reg: u8) -> (r: u16) {
        miim_read(&mut self.eth_mac, phy, reg)
    }

    fn write(&mut self, phy: u8, reg: u8, data: u16) {
        miim_write(&mut self.eth_mac, phy, reg, data)
    }
}

} // verus!
