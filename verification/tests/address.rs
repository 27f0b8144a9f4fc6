use knx_rust::address::{GroupAddress2, GroupAddress3, IndividualAddress};

#[test]
fn individual_address() {
    let address = IndividualAddress::new(1, 2, 3);

    assert_eq!(address.area(), 1);
    assert_eq!(address.line(), 2);
    assert_eq!(address.device(), 3);
    assert_eq!("1.2.3", address.to_string());

    let from_u16 = IndividualAddress::from_u16(0x1234);
    assert_eq!(from_u16.to_u16(), 0x1234)
}

#[test]
fn group_address3() {
    let address = GroupAddress3::new(1, 2, 3);

    assert_eq!(address.main(), 1);
    assert_eq!(address.middle(), 2);
    assert_eq!(address.sub(), 3);
    assert_eq!("1/2/3", address.to_string());

    let from_u16 = GroupAddress3::from_u16(0x1234);
    assert_eq!(from_u16.to_u16(), 0x1234)
}

#[test]
fn group_address2() {
    let address = GroupAddress2::new(1, 3);

    assert_eq!(address.main(), 1);
    assert_eq!(address.sub(), 3);
    assert_eq!("1/3", address.to_string());

    let from_u16 = GroupAddress2::from_u16(0x1234);
    assert_eq!(from_u16.to_u16(), 0x1234)
}

#[test]
fn individual_address_packs_into_16_bits() {
    assert_eq!(IndividualAddress::new(1, 1, 1).to_u16(), 0x1101);
    assert_eq!(IndividualAddress::new(2, 1, 10).to_u16(), 0x210A);
    assert_eq!(IndividualAddress::new(15, 15, 255).to_u16(), 0xFFFF);
    assert_eq!(IndividualAddress::new(0, 0, 0).to_u16(), 0);
}

#[test]
fn individual_address_parts_round_trip() {
    for area in 0..=15u8 {
        for line in 0..=15u8 {
            for device in [0u8, 1, 127, 128, 255] {
                let address = IndividualAddress::new(area, line, device);
                assert_eq!(address.area(), area);
                assert_eq!(address.line(), line);
                assert_eq!(address.device(), device);
                let again = IndividualAddress::from_u16(address.to_u16());
                assert_eq!(again, address);
            }
        }
    }
}

#[test]
fn individual_address_keeps_the_low_bits_of_its_parts() {
    let address = IndividualAddress::new(0x12, 0x34, 5);
    assert_eq!(address.area(), 2);
    assert_eq!(address.line(), 4);
    assert_eq!(address.device(), 5);
}

#[test]
fn group_address2_parts_round_trip() {
    for main in 0..=31u8 {
        for sub in [0u16, 1, 4, 255, 256, 1024, 2047] {
            let address = GroupAddress2::new(main, sub);
            assert_eq!(address.main(), main);
            assert_eq!(address.sub(), sub);
        }
    }
    assert_eq!(GroupAddress2::new(8, 4).to_u16(), 0x4004);
    assert_eq!(GroupAddress2::new(31, 2047).to_u16(), 0xFFFF);
}

#[test]
fn group_address3_parts_round_trip() {
    for main in 0..=31u8 {
        for middle in 0..=7u8 {
            for sub in [0u8, 1, 10, 255] {
                let address = GroupAddress3::new(main, middle, sub);
                assert_eq!(address.main(), main);
                assert_eq!(address.middle(), middle);
                assert_eq!(address.sub(), sub);
            }
        }
    }
    assert_eq!(GroupAddress3::new(2, 1, 10).to_u16(), (2 << 11) | (1 << 8) | 10);
}

#[test]
fn every_value_is_the_pack_of_its_parts() {
    for addr in [0u16, 1, 0x00FF, 0x0100, 0x1234, 0x7FFF, 0x8000, 0xFFFF] {
        let individual = IndividualAddress::from_u16(addr);
        assert_eq!(
            IndividualAddress::new(individual.area(), individual.line(), individual.device())
                .to_u16(),
            addr
        );
        let two = GroupAddress2::from_u16(addr);
        assert_eq!(GroupAddress2::new(two.main(), two.sub()).to_u16(), addr);
        let three = GroupAddress3::from_u16(addr);
        assert_eq!(GroupAddress3::new(three.main(), three.middle(), three.sub()).to_u16(), addr);
    }
}

#[test]
fn addresses_have_their_text_forms() {
    assert_eq!(IndividualAddress::from_u16(0xFFFF).to_string(), "15.15.255");
    assert_eq!(IndividualAddress::from_u16(0).to_string(), "0.0.0");
    assert_eq!(GroupAddress2::from_u16(0xFFFF).to_string(), "31/2047");
    assert_eq!(GroupAddress2::from_u16(0x000A).to_string(), "0/10");
    assert_eq!(GroupAddress3::from_u16(0xFFFF).to_string(), "31/7/255");
    assert_eq!(GroupAddress3::from_u16(0x0128).to_string(), "0/1/40");
}
