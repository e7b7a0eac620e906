use stm32_eth::mac::EthernetMACWithMiim;
use stm32_eth::miim::{miim_read, miim_write, transaction_done};
use stm32_eth::pins::{MdcPin, MdioPin};
use stm32_eth::registers::MacRegisterBlock;

#[derive(Debug, PartialEq)]
struct DataPin(u8);

#[derive(Debug, PartialEq)]
struct ClockPin(u8);

impl MdioPin for DataPin {}
impl MdcPin for ClockPin {}

fn owned_handle(latency: u32) -> EthernetMACWithMiim<DataPin, ClockPin> {
    EthernetMACWithMiim::new(MacRegisterBlock::new(latency), DataPin(2), ClockPin(1))
}

fn phy_field(word: u32) -> u32 {
    (word >> 11) & 0x1f
}

fn reg_field(word: u32) -> u32 {
    (word >> 6) & 0x1f
}

#[test]
fn write_then_read_returns_value() {
    let mut mac = owned_handle(2);
    mac.write(0, 4, 0x01e1);
    assert_eq!(mac.read(0, 4), 0x01e1);
    mac.write(31, 31, 0xffff);
    assert_eq!(mac.read(31, 31), 0xffff);
    assert_eq!(mac.read(0, 4), 0x01e1);
}

#[test]
fn write_then_read_every_address() {
    let mut mac = owned_handle(0);
    for phy in 0u8..32 {
        for reg in 0u8..32 {
            let value = (phy as u16) << 8 | reg as u16 | 0x8000;
            mac.write(phy, reg, value);
            assert_eq!(mac.read(phy, reg), value);
        }
    }
    for phy in 0u8..32 {
        for reg in 0u8..32 {
            assert_eq!(mac.read(phy, reg), (phy as u16) << 8 | reg as u16 | 0x8000);
        }
    }
}

#[test]
fn write_leaves_other_registers() {
    let mut mac = owned_handle(1);
    mac.write(3, 9, 0x1234);
    assert_eq!(mac.registers().phy_register(3, 9), 0x1234);
    assert_eq!(mac.registers().phy_register(3, 8), 0);
    assert_eq!(mac.registers().phy_register(2, 9), 0);
    assert_eq!(mac.read(3, 10), 0);
}

#[test]
fn read_returns_preset_phy_register() {
    let mut regs = MacRegisterBlock::new(4);
    regs.set_phy_register(1, 2, 0x0022);
    regs.set_phy_register(1, 3, 0x1622);
    let mut mac = EthernetMACWithMiim::new(regs, DataPin(2), ClockPin(1));
    assert_eq!(mac.read(1, 2), 0x0022);
    assert_eq!(mac.read(1, 3), 0x1622);
    assert_eq!(mac.registers().data_value(), 0x1622);
}

#[test]
fn read_request_encodes_fields() {
    let mut mac = owned_handle(0);
    mac.read(1, 2);
    let word = mac.registers().control_value();
    assert_eq!(word, 0x0880);
    assert_eq!(phy_field(word), 1);
    assert_eq!(reg_field(word), 2);
    assert_eq!(word & 0x2, 0);
    assert_eq!(word & 0x1, 0);
}

#[test]
fn write_request_encodes_fields() {
    let mut mac = owned_handle(0);
    mac.write(31, 17, 5);
    let word = mac.registers().control_value();
    assert_eq!(word, (31 << 11) | (17 << 6) | 0x2);
    assert_eq!(phy_field(word), 31);
    assert_eq!(reg_field(word), 17);
    assert_eq!(word & 0x2, 0x2);
    assert_eq!(word & 0x1, 0);
    assert_eq!(mac.registers().data_value(), 5);
}

#[test]
fn every_request_encodes_fields() {
    let mut mac = owned_handle(0);
    for phy in 0u8..=255 {
        let reg = phy.wrapping_mul(7);
        mac.read(phy, reg);
        let word = mac.registers().control_value();
        assert_eq!(phy_field(word), (phy % 32) as u32);
        assert_eq!(reg_field(word), (reg % 32) as u32);
        assert_eq!(word & 0x3, 0);
        mac.write(phy, reg, 1);
        let word = mac.registers().control_value();
        assert_eq!(phy_field(word), (phy % 32) as u32);
        assert_eq!(reg_field(word), (reg % 32) as u32);
        assert_eq!(word & 0x3, 0x2);
    }
}

#[test]
fn read_polls_latency_plus_one_times() {
    for latency in [0u32, 1, 5, 100] {
        let mut regs = MacRegisterBlock::new(latency);
        regs.set_phy_register(0, 1, 0x796d);
        let mut mac = EthernetMACWithMiim::new(regs, DataPin(2), ClockPin(1));
        assert_eq!(mac.read(0, 1), 0x796d);
        assert_eq!(mac.registers().poll_count(), latency as u64 + 1);
    }
}

#[test]
fn write_polls_latency_plus_one_times() {
    let mut mac = owned_handle(7);
    mac.write(2, 0, 0x3100);
    assert_eq!(mac.registers().poll_count(), 8);
    assert_eq!(mac.registers().phy_register(2, 0), 0x3100);
}

#[test]
fn large_latency_completes() {
    let mut mac = owned_handle(100_000);
    mac.write(5, 5, 42);
    assert_eq!(mac.read(5, 5), 42);
    assert_eq!(mac.registers().poll_count(), 100_001);
}

#[test]
fn phy_address_wraps_at_32() {
    let mut wrapped = owned_handle(3);
    let mut direct = owned_handle(3);
    wrapped.write(33, 0, 0xbeef);
    direct.write(1, 0, 0xbeef);
    assert_eq!(wrapped.registers().control_value(), direct.registers().control_value());
    assert_eq!(wrapped.registers().data_value(), direct.registers().data_value());
    assert_eq!(wrapped.registers().poll_count(), direct.registers().poll_count());
    for phy in 0u8..32 {
        for reg in 0u8..32 {
            assert_eq!(
                wrapped.registers().phy_register(phy, reg),
                direct.registers().phy_register(phy, reg)
            );
        }
    }
    assert_eq!(wrapped.read(1, 0), 0xbeef);
    assert_eq!(wrapped.read(33, 32), 0xbeef);
}

#[test]
fn register_address_wraps_at_32() {
    let mut mac = owned_handle(0);
    mac.write(0, 255, 9);
    assert_eq!(mac.read(0, 31), 9);
    assert_eq!(mac.registers().phy_register(0, 31), 9);
}

#[test]
fn engine_functions_on_bare_registers() {
    let mut regs = MacRegisterBlock::new(2);
    miim_write(&mut regs, 4, 1, 0x7809);
    assert_eq!(regs.poll_count(), 3);
    assert_eq!(miim_read(&mut regs, 4, 1), 0x7809);
    assert_eq!(regs.control_value(), (4 << 11) | (1 << 6));
}

#[test]
fn fresh_register_block_is_idle() {
    let regs = MacRegisterBlock::new(9);
    assert_eq!(regs.control_value(), 0);
    assert_eq!(regs.data_value(), 0);
    assert_eq!(regs.poll_count(), 0);
    assert_eq!(regs.phy_register(31, 31), 0);
}

#[test]
fn transaction_done_reads_busy_bit() {
    assert!(transaction_done(0));
    assert!(transaction_done(0x0882));
    assert!(!transaction_done(0x0881));
    assert!(!transaction_done(0xffff_ffff));
}

#[test]
fn poll_count_restarts_with_each_transaction() {
    let mut mac = owned_handle(4);
    mac.write(0, 0, 1);
    assert_eq!(mac.registers().poll_count(), 5);
    mac.read(0, 0);
    assert_eq!(mac.registers().poll_count(), 5);
}

#[test]
fn read_leaves_data_register_with_phy_value() {
    let mut regs = MacRegisterBlock::new(3);
    regs.set_phy_register(6, 2, 0xabcd);
    miim_write(&mut regs, 6, 3, 0x1111);
    assert_eq!(regs.data_value(), 0x1111);
    assert_eq!(miim_read(&mut regs, 6, 2), 0xabcd);
    assert_eq!(regs.data_value(), 0xabcd);
    assert_eq!(regs.phy_register(6, 3), 0x1111);
}
