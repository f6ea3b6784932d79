use apple_ble::advertisement::AdvertisableData;
use apple_ble::advertisement::AdvertisementError;
use apple_ble::advertisement::AdvertisementType;
use apple_ble::advertisement::AirDropAdvertisementData;
use apple_ble::advertisement::AirPlaySourceAdvertisementData;
use apple_ble::advertisement::AirPlayTargetAdvertisementData;
use apple_ble::advertisement::AirPrintAdvertisementData;
use apple_ble::advertisement::FindMyAdvertisementData;

#[test]
fn test_serialization_and_deserialization() {
    let data = AirDropAdvertisementData {
        apple_id: [0xfe, 0xdc],
        email: [0xba, 0x98],
        phone: [0x76, 0x54],
    };
    let serialized = data.clone().octets();
    let deserialized = AirDropAdvertisementData::try_from(serialized).unwrap();
    assert_eq!(data, deserialized);

    let data = AirPlayTargetAdvertisementData {
        ip_address: [127, 0, 0, 1],
    };
    let serialized = data.clone().octets();
    let deserialized = AirPlayTargetAdvertisementData::try_from(serialized).unwrap();
    assert_eq!(data, deserialized);

    let data = AirPrintAdvertisementData {
        port: 0xf00d,
        ip_addr: [0, 0, 0, 0, 0, 0, 0, 0, 0, 0, 0, 0, 0, 0, 0, 1],
        power: 0xff,
    };
    let serialized = data.clone().octets();
    let deserialized = AirPrintAdvertisementData::try_from(serialized).unwrap();
    assert_eq!(data, deserialized);

    let data = FindMyAdvertisementData {
        public_key: [0x00_u8; 28],
    };
    let serialized = data.clone().octets();
    let mut addr = [0u8; 6];
    addr.copy_from_slice(&data.public_key[0..6]);
    let deserialized = FindMyAdvertisementData::try_from((addr, serialized)).unwrap();
    assert_eq!(data, deserialized);
}

#[test]
fn airplay_target_scenario() {
    let data = AirPlayTargetAdvertisementData {
        ip_address: [127, 0, 0, 1],
    };
    let bytes = data.octets();
    assert_eq!(bytes, vec![0x09, 0x06, 0x03, 0x07, 0x7f, 0x00, 0x00, 0x01]);
    let back = AirPlayTargetAdvertisementData::try_from(bytes).unwrap();
    assert_eq!(back.ip_address, [127, 0, 0, 1]);
}

#[test]
fn airprint_scenario() {
    let data = AirPrintAdvertisementData {
        port: 0xf00d,
        ip_addr: [0, 0, 0, 0, 0, 0, 0, 0, 0, 0, 0, 0, 0, 0, 0, 1],
        power: 0xff,
    };
    let bytes = data.octets();
    let mut expected = vec![0x03, 0x16, 0x74, 0x07, 0x6f, 0xf0, 0x0d];
    expected.extend_from_slice(&[0, 0, 0, 0, 0, 0, 0, 0, 0, 0, 0, 0, 0, 0, 0, 1]);
    expected.push(0xff);
    assert_eq!(bytes, expected);
    let back = AirPrintAdvertisementData::try_from(bytes).unwrap();
    assert_eq!(back.port, 0xf00d);
    assert_eq!(back.ip_addr, [0, 0, 0, 0, 0, 0, 0, 0, 0, 0, 0, 0, 0, 0, 0, 1]);
    assert_eq!(back.power, 0xff);
}

#[test]
fn findmy_scenario() {
    let data = FindMyAdvertisementData {
        public_key: [0x88; 28],
    };
    let bytes = data.octets();
    assert_eq!(bytes.len(), 26);
    assert_eq!(bytes[0], 0x12);
    assert_eq!(bytes[1], 0x19);
    assert_eq!(bytes[2], 0x00);
    for i in 3..25 {
        assert_eq!(bytes[i], 0x88);
    }
    assert_eq!(bytes[25], 0x02);
    let back = FindMyAdvertisementData::try_from(([0x88; 6], bytes)).unwrap();
    assert_eq!(back.public_key, [0x88; 28]);
}

#[test]
fn encoded_lengths_are_constant() {
    assert_eq!(
        AirDropAdvertisementData {
            apple_id: [0, 0],
            phone: [0, 0],
            email: [0, 0],
        }
        .octets()
        .len(),
        19
    );
    assert_eq!(
        AirDropAdvertisementData {
            apple_id: [0xff, 0x01],
            phone: [0x7f, 0x80],
            email: [0x12, 0x34],
        }
        .octets()
        .len(),
        19
    );
    assert_eq!(AirPlaySourceAdvertisementData.octets().len(), 3);
    assert_eq!(
        AirPlayTargetAdvertisementData {
            ip_address: [10, 20, 30, 40],
        }
        .octets()
        .len(),
        8
    );
    assert_eq!(
        AirPrintAdvertisementData {
            port: 0x1337,
            ip_addr: [0xab; 16],
            power: 100,
        }
        .octets()
        .len(),
        24
    );
    assert_eq!(
        FindMyAdvertisementData {
            public_key: [0x11; 28],
        }
        .octets()
        .len(),
        26
    );
}

#[test]
fn airdrop_round_trip_varied() {
    let data = AirDropAdvertisementData {
        apple_id: [0x01, 0x02],
        phone: [0x03, 0x04],
        email: [0x05, 0x06],
    };
    let bytes = data.octets();
    assert_eq!(
        bytes,
        vec![
            0x05, 0x12, 0x00, 0x00, 0x00, 0x00, 0x00, 0x00, 0x00, 0x00, 0x01, 0x01, 0x02, 0x03,
            0x04, 0x05, 0x06, 0x05, 0x06
        ]
    );
    let back = AirDropAdvertisementData::try_from(bytes).unwrap();
    assert_eq!(data, back);
}

#[test]
fn decode_truncated_airdrop() {
    let r = AirDropAdvertisementData::try_from(vec![0x05; 16]);
    assert_eq!(r.unwrap_err(), AdvertisementError::TruncatedInput);
}

#[test]
fn decode_truncated_airplay_target() {
    let r = AirPlayTargetAdvertisementData::try_from(vec![0x09; 7]);
    assert_eq!(r.unwrap_err(), AdvertisementError::TruncatedInput);
}

#[test]
fn decode_truncated_airprint() {
    let r = AirPrintAdvertisementData::try_from(vec![0x03; 23]);
    assert_eq!(r.unwrap_err(), AdvertisementError::TruncatedInput);
}

#[test]
fn decode_truncated_findmy() {
    let r = FindMyAdvertisementData::try_from(([0u8; 6], vec![0x12; 24]));
    assert_eq!(r.unwrap_err(), AdvertisementError::TruncatedInput);
}

#[test]
fn decode_airplay_source_ignores_input() {
    assert!(AirPlaySourceAdvertisementData::try_from(vec![]).is_ok());
    assert!(AirPlaySourceAdvertisementData::try_from(vec![0xde, 0xad]).is_ok());
}

#[test]
fn decode_does_not_validate_header_bytes() {
    // The tag and length-field positions accept any value.
    let mut bytes = vec![0xffu8; 19];
    bytes[11] = 0x01;
    bytes[12] = 0x02;
    let d = AirDropAdvertisementData::try_from(bytes).unwrap();
    assert_eq!(d.apple_id, [0x01, 0x02]);
}

#[test]
fn dispatch_by_tag() {
    let addr = [0u8; 6];

    let airdrop = AirDropAdvertisementData {
        apple_id: [0xaa, 0xbb],
        phone: [0xcc, 0xdd],
        email: [0xee, 0xff],
    };
    match AdvertisementType::from_manufacturer_data(addr, airdrop.octets()) {
        Some(AdvertisementType::AirDrop(d)) => assert_eq!(d, airdrop),
        _ => panic!("expected an AirDrop record"),
    }

    match AdvertisementType::from_manufacturer_data(addr, AirPlaySourceAdvertisementData.octets())
    {
        Some(AdvertisementType::AirPlaySource) => {}
        _ => panic!("expected an AirPlay source record"),
    }

    let target = AirPlayTargetAdvertisementData {
        ip_address: [192, 168, 1, 4],
    };
    match AdvertisementType::from_manufacturer_data(addr, target.octets()) {
        Some(AdvertisementType::AirPlayTarget(d)) => assert_eq!(d, target),
        _ => panic!("expected an AirPlay target record"),
    }

    let print = AirPrintAdvertisementData {
        port: 631,
        ip_addr: [0xfe; 16],
        power: 50,
    };
    match AdvertisementType::from_manufacturer_data(addr, print.octets()) {
        Some(AdvertisementType::AirPrint(d)) => assert_eq!(d, print),
        _ => panic!("expected an AirPrint record"),
    }

    let findmy = FindMyAdvertisementData {
        public_key: [0x42; 28],
    };
    match AdvertisementType::from_manufacturer_data([0x42; 6], findmy.octets()) {
        Some(AdvertisementType::FindMy(d)) => assert_eq!(d, findmy),
        _ => panic!("expected a FindMy record"),
    }
}

#[test]
fn dispatch_rejects_unknown_and_short() {
    let addr = [0u8; 6];
    assert!(AdvertisementType::from_manufacturer_data(addr, vec![]).is_none());
    assert!(AdvertisementType::from_manufacturer_data(addr, vec![0x99, 0x00]).is_none());
    assert!(AdvertisementType::from_manufacturer_data(addr, vec![0x05, 0x12, 0x00]).is_none());
}
