use ksz8863::miim::{self, Read, Write, Miim};

#[test]
fn test_bcr_default() {
    let actual: u16 = miim::Bcr::default().into();
    let expected = 0b0001_0000_0010_0000;
    assert_eq!(actual, expected);
}

#[test]
fn test_bcr_reset() {
    // All fields are RW, so resetting should reset to default state.
    let mut actual = miim::Bcr::from(0);
    assert!(actual != miim::Bcr::default());
    actual = actual.write().reset().0;
    assert_eq!(actual, miim::Bcr::default());
}

#[test]
fn test_bsr_default() {
    let actual: u16 = miim::Bsr::default().into();
    let expected = 0b0111_1000_0000_1000;
    assert_eq!(actual, expected);
}

// Checks all the register default constructors.
// Run with `cargo test -- --nocapture` to see all default register state.
#[test]
fn miim_map_default() {
    let map = miim::RegMap::default();
    for addr in miim::Address::all() {
        println!("{:#?}", map.state(addr));
    }
}

#[test]
fn miim_api() {
    // Rather than a `RegMap`, we would normally use a real MIIM interface, however for testing
    // the API its easier to read and write to a map.
    let mut miim = Miim(miim::RegMap::default());

    // Access the phy at addr `0`.
    let mut phy = miim.phy(0);

    // Access the Bcr register.
    let mut bcr = phy.bcr();

    // Read the value. Should be default.
    let a = bcr.read().unwrap();
    assert_eq!(a, miim::Bcr::default());

    // Overwrite the Bcr register.
    bcr.write(|w| w.enable_autoneg().clear_bit()).unwrap();
    let b = bcr.read().unwrap();
    assert!(a != b);

    // Modify the Bcr register.
    bcr.modify(|w| w.force_100().set_bit()).unwrap();
    let c = bcr.read().unwrap();
    assert!(c.read().enable_autoneg().bit_is_clear());
    assert!(c.read().force_100().bit_is_set());

    // Reset the Bcr register.
    bcr.write(|w| w.reset()).unwrap();
    let d = bcr.read().unwrap();
    assert_eq!(a, d);

    // Check non-lexical borrows are working nicely.
    assert_eq!(a, miim.phy(0).bcr().read().unwrap());
}

#[test]
fn miim_write_and_modify_diverge() {
    // Bcr's default has `enable_autoneg` (bit 12) and `hp_mdix` (bit 5) set; `force_100` is
    // bit 13.
    let mut miim = Miim(miim::RegMap::default());
    let mut phy = miim.phy(1);
    let mut bcr = phy.bcr();
    assert_eq!(u16::from(bcr.read().unwrap()), 0x1020);

    // `write` starts from the default, whatever the register held.
    bcr.write(|w| w.force_100().set_bit()).unwrap();
    assert_eq!(u16::from(bcr.read().unwrap()), 0x3020);

    // Clear `enable_autoneg` outside of the handle, as the device might.
    let mut map = miim::RegMap::default();
    map.set_reg(miim::Bcr::from(0x0020));
    let mut modified = Miim(map);
    modified.phy(1).bcr().modify(|w| w.force_100().set_bit()).unwrap();
    let m = modified.phy(1).bcr().read().unwrap();
    assert_eq!(u16::from(m), 0x2020);
    assert!(m.read().enable_autoneg().bit_is_clear());

    // From the same starting state, `write` brings `enable_autoneg` back to its default.
    let mut map = miim::RegMap::default();
    map.set_reg(miim::Bcr::from(0x0020));
    let mut written = Miim(map);
    written.phy(1).bcr().write(|w| w.force_100().set_bit()).unwrap();
    let w = written.phy(1).bcr().read().unwrap();
    assert_eq!(u16::from(w), 0x3020);
    assert!(w.read().enable_autoneg().bit_is_set());
    assert!(m != w);
}

#[test]
fn miim_address_codes_round_trip() {
    let all = miim::Address::all();
    assert_eq!(all.len(), 8);
    for addr in all {
        let code: u8 = addr.into();
        assert_eq!(miim::Address::try_from(code).unwrap(), addr);
    }
    assert_eq!(u8::from(miim::Address::LinkMd), 0x1D);
    assert_eq!(miim::Address::try_from(0x1Fu8).unwrap(), miim::Address::PhySpecial);
    for code in [0x06u8, 0x07, 0x10, 0x1E, 0x20, 0xFF] {
        assert!(miim::Address::try_from(code).is_err());
    }
}

#[test]
fn miim_state_downcast() {
    for v in [0u16, 1, 0x8000, 0x1234, 0xFFFF] {
        let s = miim::State::from_addr_and_data(miim::Address::Anar, v);
        assert_eq!(s.addr(), miim::Address::Anar);
        let r: miim::Anar = s.reg().unwrap();
        assert_eq!(u16::from(r), v);
        assert_eq!(u16::from(s), v);
        assert!(s.reg::<miim::Bcr>().is_err());
    }
}

#[test]
fn miim_map_default_states() {
    let map = miim::RegMap::default();
    for addr in miim::Address::all() {
        assert_eq!(map.state(addr), miim::State::from_addr_default(addr));
    }
    assert_eq!(map.reg::<miim::Bsr>(), miim::Bsr::default());
    assert_eq!(map.reg::<miim::PhyIdR1>().read().phy_id_high().bits(), 0x0022);
    assert_eq!(map.reg::<miim::PhyIdR2>().read().phy_id_low().bits(), 0x1430);
}

#[test]
fn miim_map_transport_rejects_unknown_codes() {
    let mut map = miim::RegMap::default();
    assert!(Read::read(&mut map, 0, 0x06).is_err());
    assert!(Write::write(&mut map, 0, 0x06, 1).is_err());
    assert_eq!(Read::read(&mut map, 0, 0x01).unwrap(), 0x7808);
    Write::write(&mut map, 0, 0x1F, 0x0010).unwrap();
    assert_eq!(u16::from(map.reg::<miim::PhySpecial>()), 0x0010);
}

#[test]
fn miim_dynamic_phy_access() {
    let mut miim = Miim(miim::RegMap::default());
    let mut phy = miim.phy(2);
    let s = phy.read(miim::Address::PhyIdR2).unwrap();
    assert_eq!(u16::from(s), 0x1430);
    phy.write(miim::State::from_addr_and_data(miim::Address::PhyIdR2, 0xBEEF)).unwrap();
    let r = phy.phyidr2().read().unwrap();
    assert_eq!(r.read().phy_id_low().bits(), 0xBEEF);
    phy.phyidr2().write(|w| w.phy_id_low().bits(0x0102)).unwrap();
    assert_eq!(u16::from(phy.phyidr2().read().unwrap()), 0x0102);
    assert_eq!(u16::from(miim.0.reg::<miim::PhyIdR2>()), 0x0102);
}

#[test]
fn miim_link_md_fields() {
    // vct_result holds bits 13 and 14 of the word.
    let r = miim::LinkMd::from(0b0110_0000_0000_0000);
    assert_eq!(r.read().vct_result().bits(), 0b11);
    assert!(r.read().vct_10m_short().bit_is_clear());
    assert!(r.read().vct_enable().bit_is_clear());
    let r = miim::LinkMd::from(0b1001_0001_1111_1111);
    assert!(r.read().vct_enable().bit_is_set());
    assert!(r.read().vct_10m_short().bit_is_set());
    assert_eq!(r.read().vct_fault_count().bits(), 0b1_1111_1111);
    assert_eq!(r.read().vct_result().bits(), 0);
}

#[test]
fn miim_field_resets_in_any_order() {
    let start = miim::Anar::from(0);
    let a = start.write().adv_pause().reset().adv_10_hd().reset().adv_100_fd().reset();
    let a = a.adv_100_hd().reset().adv_10_fd().reset().0;
    let b = start.write().adv_10_fd().reset().adv_100_hd().reset().adv_100_fd().reset();
    let b = b.adv_10_hd().reset().adv_pause().reset().0;
    assert_eq!(a, b);
    assert_eq!(a, miim::Anar::default());
    assert_eq!(start.write().reset().0, miim::Anar::default());
}

#[test]
fn miim_state_conversions() {
    let r = miim::Bsr::from(0x1234);
    let s = miim::State::from(r);
    assert_eq!(s.addr(), miim::Address::Bsr);
    assert_eq!(miim::Bsr::try_from(s).unwrap(), r);
    assert!(miim::Bcr::try_from(s).is_err());
}
