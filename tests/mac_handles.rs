use stm32_eth::mac::{EthernetMAC, EthernetMACWithMiim};
use stm32_eth::miim::Miim;
use stm32_eth::pins::{MdcPin, MdioPin};
use stm32_eth::registers::MacRegisterBlock;

#[derive(Debug, PartialEq)]
struct Pa2(u32);

#[derive(Debug, PartialEq)]
struct Pc1(u32);

impl MdioPin for Pa2 {}
impl MdcPin for Pc1 {}

fn bump_register<M: Miim>(bus: &mut M, phy: u8, reg: u8) -> u16 {
    let v = bus.read(phy, reg);
    bus.write(phy, reg, v.wrapping_add(1));
    bus.read(phy, reg)
}

#[test]
fn session_reads_and_writes() {
    let mut mac = EthernetMAC::new(MacRegisterBlock::new(3));
    let mut mdio = Pa2(0);
    let mut mdc = Pc1(0);
    {
        let mut smi = mac.smi(&mut mdio, &mut mdc);
        smi.write(1, 0, 0x8000);
        assert_eq!(smi.read(1, 0), 0x8000);
    }
    assert_eq!(mac.registers().phy_register(1, 0), 0x8000);
    assert_eq!(mac.registers().poll_count(), 4);
}

#[test]
fn sessions_follow_one_another() {
    let mut mac = EthernetMAC::new(MacRegisterBlock::new(1));
    let mut mdio = Pa2(0);
    let mut mdc = Pc1(0);
    mac.smi(&mut mdio, &mut mdc).write(2, 3, 11);
    let second = mac.smi(&mut mdio, &mut mdc).read(2, 3);
    assert_eq!(second, 11);
}

#[test]
fn session_leaves_pins_unchanged() {
    let mut mac = EthernetMAC::new(MacRegisterBlock::new(0));
    let mut mdio = Pa2(7);
    let mut mdc = Pc1(8);
    mac.smi(&mut mdio, &mut mdc).write(0, 0, 1);
    assert_eq!(mdio, Pa2(7));
    assert_eq!(mdc, Pc1(8));
}

#[test]
fn attach_then_release_restores_handle_and_pins() {
    let mut regs = MacRegisterBlock::new(6);
    regs.set_phy_register(4, 4, 0x0de1);
    let mac = EthernetMAC::new(regs);
    let with = mac.with_smi(Pa2(2), Pc1(1));
    let (mac, mdio, mdc) = with.release_pins();
    assert_eq!(mdio, Pa2(2));
    assert_eq!(mdc, Pc1(1));
    assert_eq!(mac.registers().phy_register(4, 4), 0x0de1);
    assert_eq!(mac.registers().control_value(), 0);
    assert_eq!(mac.registers().poll_count(), 0);
}

#[test]
fn released_handle_keeps_transactions() {
    let mut with = EthernetMAC::new(MacRegisterBlock::new(2)).with_smi(Pa2(0), Pc1(0));
    with.write(9, 1, 0x4400);
    let (mut mac, mut mdio, mut mdc) = with.release_pins();
    assert_eq!(mac.smi(&mut mdio, &mut mdc).read(9, 1), 0x4400);
}

#[test]
fn management_interface_through_owned_handle() {
    let mut with = EthernetMACWithMiim::new(MacRegisterBlock::new(1), Pa2(0), Pc1(0));
    assert_eq!(bump_register(&mut with, 3, 3), 1);
    assert_eq!(bump_register(&mut with, 3, 3), 2);
    assert_eq!(with.read(3, 3), 2);
}

#[test]
fn management_interface_through_session() {
    let mut mac = EthernetMAC::new(MacRegisterBlock::new(1));
    let mut mdio = Pa2(0);
    let mut mdc = Pc1(0);
    let mut smi = mac.smi(&mut mdio, &mut mdc);
    assert_eq!(bump_register(&mut smi, 0, 1), 1);
    assert_eq!(bump_register(&mut smi, 32, 33), 2);
}
