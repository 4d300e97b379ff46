use ksz8863::smi::{self, Read, Write, Smi};

// Run with `cargo test -- --nocapture`
#[test]
fn smi_map_default() {
    let map = smi::RegMap::default();
    for addr in smi::Address::all() {
        println!("{:#?}", map.state(addr));
    }
}

#[test]
fn smi_api() {
    // Rather than a `RegMap`, we would normally use a real SMI interface, however for testing the
    // API its easier to read and write to a map.
    let mut smi = Smi(smi::RegMap::default());

    // Access the Bcr register.
    let mut gc1 = smi.gc1();

    // Read the value. Should be default.
    let a = gc1.read().unwrap();
    assert_eq!(a, smi::Gc1::default());

    // Overwrite the Gc1 register.
    gc1.write(|w| w.aging().clear_bit()).unwrap();
    let b = gc1.read().unwrap();
    assert!(a != b);

    // Modify the Gc1 register.
    gc1.modify(|w| w.aggressive_back_off().set_bit()).unwrap();
    let c = gc1.read().unwrap();
    assert!(c.read().aging().bit_is_clear());
    assert!(c.read().aggressive_back_off().bit_is_set());

    // Reset the Gc1 register.
    gc1.write(|w| w.reset()).unwrap();
    let d = gc1.read().unwrap();
    assert_eq!(a, d);

    // Check non-lexical borrows are working nicely.
    assert_eq!(a, smi.gc1().read().unwrap());
}

#[test]
fn smi_defaults() {
    // tx_flow_control (bit 5), rx_flow_control (bit 4) and aging (bit 2) are set by default.
    assert_eq!(u8::from(smi::Gc1::default()), 0b0011_0100);
    assert_eq!(u8::from(smi::ChipId0::default()), 0x88);
    assert_eq!(smi::ChipId0::default().read().family_id().bits(), 0x88);
    let id = smi::ChipId1::default();
    assert_eq!(id.read().chip_id().bits(), 0x3);
    assert!(id.read().start_switch().bit_is_set());
    assert_eq!(id.read().revision_id().bits(), 0);
    assert_eq!(u8::from(id), 0x31);
    assert_eq!(u8::from(smi::Gc5::default()), 0x63);
}

#[test]
fn smi_multi_bit_fields() {
    let mut smi = Smi(smi::RegMap::default());
    let gc9 = smi.gc9().read().unwrap();
    assert_eq!(u8::from(gc9), 0x88);
    assert_eq!(gc9.read().cpu_iface_clk().bits(), 0b10);
    assert_eq!(gc9.read().reserved().bits(), 0b10);

    smi.gc9().write(|w| w.cpu_iface_clk().bits(0b01)).unwrap();
    let gc9 = smi.gc9().read().unwrap();
    assert_eq!(u8::from(gc9), 0x48);
    assert_eq!(gc9.read().cpu_iface_clk().bits(), 0b01);

    // Bits that do not fit in the field are dropped.
    smi.gc9().modify(|w| w.cpu_iface_clk().bits(0b111)).unwrap();
    assert_eq!(u8::from(smi.gc9().read().unwrap()), 0xC8);
    smi.gc9().modify(|w| w.cpu_iface_clk().reset()).unwrap();
    assert_eq!(u8::from(smi.gc9().read().unwrap()), 0x88);

    // cpu_iface_clk holds bits 6 and 7 of the word.
    assert_eq!(smi::Gc9::from(0xC0).read().cpu_iface_clk().bits(), 3);

    smi.gc10().write(|w| w.tag_0x3().bits(0b11).tag_0x0().bits(0b10)).unwrap();
    assert_eq!(u8::from(smi.gc10().read().unwrap()), 0b1101_0010);
}

#[test]
fn smi_write_ignores_stored_value_and_modify_keeps_it() {
    let mut map = smi::RegMap::default();
    // Only pass_all_frames, bit 7, is set.
    map.set_reg(smi::Gc1::from(0b1000_0000));
    let mut smi = Smi(map);
    smi.gc1().modify(|w| w.aggressive_back_off().set_bit()).unwrap();
    assert_eq!(u8::from(smi.gc1().read().unwrap()), 0b1000_0001);
    smi.gc1().write(|w| w.aggressive_back_off().set_bit()).unwrap();
    assert_eq!(u8::from(smi.gc1().read().unwrap()), 0b0011_0101);
    smi.gc1().write(|w| w.aging().bit(false)).unwrap();
    assert_eq!(u8::from(smi.gc1().read().unwrap()), 0b0011_0000);
}

#[test]
fn smi_address_codes_round_trip() {
    let all = smi::Address::all();
    assert_eq!(all.len(), 135);
    for addr in all {
        let code: u8 = addr.into();
        assert_eq!(smi::Address::try_from(code).unwrap(), addr);
    }
    assert_eq!(u8::from(smi::Address::Gc1), 0x03);
    assert_eq!(smi::Address::try_from(0xC6u8).unwrap(), smi::Address::FwdInvalidVidFrameAndHostMode);
    let mut documented = 0;
    for code in 0..=255u8 {
        if smi::Address::try_from(code).is_ok() {
            documented += 1;
        }
    }
    assert_eq!(documented, 135);
    for code in [0x08u8, 0x0A, 0xC5, 0xC7, 0xFF] {
        assert!(smi::Address::try_from(code).is_err());
    }
}

#[test]
fn smi_state_downcast() {
    for v in 0..=255u8 {
        let s = smi::State::from_addr_and_data(smi::Address::Gc1, v);
        let r: smi::Gc1 = s.reg().unwrap();
        assert_eq!(u8::from(r), v);
        assert_eq!(u8::from(s), v);
        assert!(s.reg::<smi::Gc0>().is_err());
    }
    let s = smi::State::from_addr_default(smi::Address::Gc5);
    assert_eq!(s.addr(), smi::Address::Gc5);
    assert_eq!(s.reg::<smi::Gc5>().unwrap(), smi::Gc5::default());
}

#[test]
fn smi_map_states_and_transport() {
    let mut map = smi::RegMap::default();
    for addr in smi::Address::all() {
        assert_eq!(map.state(addr), smi::State::from_addr_default(addr));
    }
    assert!(Read::read(&mut map, 0x08).is_err());
    assert!(Write::write(&mut map, 0x08, 1).is_err());
    assert_eq!(Read::read(&mut map, 0x03).unwrap(), 0x34);
    assert_eq!(Read::read(&mut map, 0x00).unwrap(), 0x88);
    assert_eq!(Read::read(&mut map, 0x07).unwrap(), 0x63);
    assert_eq!(Read::read(&mut map, 0xC4).unwrap(), 0x50);
    Write::write(&mut map, 0x03, 0x01).unwrap();
    assert_eq!(u8::from(map.reg::<smi::Gc1>()), 0x01);
    map.set_state(smi::State::from_addr_and_data(smi::Address::Gc2, 0x42));
    assert_eq!(u8::from(map.state(smi::Address::Gc2)), 0x42);
    assert_eq!(u8::from(map.state(smi::Address::Gc1)), 0x01);
}

#[test]
fn smi_dynamic_access() {
    let mut smi = Smi(smi::RegMap::default());
    let s = smi.read(smi::Address::Gc5).unwrap();
    assert_eq!(u8::from(s), 0x63);
    smi.write(smi::State::from_addr_and_data(smi::Address::Gc5, 0x10)).unwrap();
    assert_eq!(smi.gc5().read().unwrap().read().broadcast_storm_protection_rate_low().bits(), 0x10);
}

#[test]
fn smi_field_resets_in_any_order() {
    let start = smi::Gc1::from(0);
    let a = start.write().aging().reset().tx_flow_control().reset().rx_flow_control().reset().0;
    let b = start.write().rx_flow_control().reset().aging().reset().tx_flow_control().reset().0;
    assert_eq!(a, b);
    assert_eq!(a, smi::Gc1::default());
}

#[test]
fn smi_state_conversions() {
    let r = smi::Gc2::from(0x42);
    let s = smi::State::from(r);
    assert_eq!(s.addr(), smi::Address::Gc2);
    assert_eq!(smi::Gc2::try_from(s).unwrap(), r);
    assert!(smi::Gc1::try_from(s).is_err());
}

#[test]
fn smi_through_mutable_reference() {
    let mut map = smi::RegMap::default();
    {
        let mut smi = Smi(&mut map);
        smi.gc1().modify(|w| w.fast_age().set_bit()).unwrap();
        assert!(smi.gc1().read().unwrap().read().fast_age().bit_is_set());
    }
    assert_eq!(u8::from(map.reg::<smi::Gc1>()), 0x36);
}

#[test]
fn smi_host_iface_mode_is_lowest_two_bits() {
    let r = smi::FwdInvalidVidFrameAndHostMode::from(0b0111_0011);
    assert_eq!(r.read().host_iface_mode().bits(), 0b11);
    assert_eq!(r.read().fwd_invalid_vid_frame().bits(), 0b111);
    let w = smi::FwdInvalidVidFrameAndHostMode::from(0).write().host_iface_mode().bits(0b10).0;
    assert_eq!(u8::from(w), 0b10);
}
