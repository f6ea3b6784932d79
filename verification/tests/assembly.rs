use apple_ble::advertisement::AdvertisableData;
use apple_ble::advertisement::AirDropAdvertisement;
use apple_ble::advertisement::AirDropAdvertisementData;
use apple_ble::advertisement::AirPlaySourceAdvertisement;
use apple_ble::advertisement::AirPlaySourceAdvertisementData;
use apple_ble::advertisement::AirPlayTargetAdvertisement;
use apple_ble::advertisement::AirPlayTargetAdvertisementData;
use apple_ble::advertisement::AirPrintAdvertisement;
use apple_ble::advertisement::AirPrintAdvertisementData;
use apple_ble::advertisement::FindMyAdvertisement;
use apple_ble::advertisement::FindMyAdvertisementData;
use apple_ble::envelope::Advertisement;
use apple_ble::envelope::BroadcastType;
use apple_ble::envelope::APPLE_MAGIC;

fn check_envelope(env: &Advertisement, name: &str, payload: &[u8]) {
    assert_eq!(env.advertisement_type, BroadcastType::Broadcast);
    assert_eq!(env.local_name.as_deref(), Some(name));
    assert_eq!(env.timeout_millis, Some(0));
    assert_eq!(env.min_interval_millis, Some(100));
    assert_eq!(env.max_interval_millis, Some(200));
    assert_eq!(env.manufacturer_id, APPLE_MAGIC);
    assert_eq!(env.manufacturer_data, payload);
}

#[test]
fn assemble_airdrop_advertisement() {
    let data = AirDropAdvertisementData {
        apple_id: [0x01, 0x02],
        phone: [0x03, 0x04],
        email: [0x05, 0x06],
    };
    assert!(AirDropAdvertisement::validate_user_data(&data).is_ok());
    let env = AirDropAdvertisement::assemble_advertisement("hci0".to_string(), &data).unwrap();
    check_envelope(&env, "hci0", &data.octets());
}

#[test]
fn assemble_airplay_source_advertisement() {
    let data = AirPlaySourceAdvertisementData;
    assert!(AirPlaySourceAdvertisement::validate_user_data(&data).is_ok());
    let env =
        AirPlaySourceAdvertisement::assemble_advertisement("hci0".to_string(), &data).unwrap();
    check_envelope(&env, "hci0", &[0x0a, 0x01, 0x00]);
}

#[test]
fn assemble_airplay_target_advertisement() {
    let data = AirPlayTargetAdvertisementData {
        ip_address: [127, 0, 0, 1],
    };
    assert!(AirPlayTargetAdvertisement::validate_user_data(&data).is_ok());
    let env =
        AirPlayTargetAdvertisement::assemble_advertisement("adapter".to_string(), &data).unwrap();
    check_envelope(&env, "adapter", &data.octets());
}

#[test]
fn assemble_airprint_advertisement() {
    let data = AirPrintAdvertisementData {
        port: 0x1337,
        ip_addr: [0, 0, 0, 0, 0, 0, 0, 0, 0, 0, 0, 0, 0, 0, 0, 1],
        power: 100,
    };
    assert!(AirPrintAdvertisement::validate_user_data(&data).is_ok());
    let env = AirPrintAdvertisement::assemble_advertisement("hci1".to_string(), &data).unwrap();
    check_envelope(&env, "hci1", &data.octets());
}

#[test]
fn assemble_findmy_advertisement() {
    let data = FindMyAdvertisementData {
        public_key: [0x88; 28],
    };
    assert!(FindMyAdvertisement::validate_user_data(&data).is_ok());
    let env = FindMyAdvertisement::assemble_advertisement("hci0".to_string(), &data).unwrap();
    check_envelope(&env, "hci0", &data.octets());
    // The override request carries the key's leading six bytes.
    assert_eq!(data.address_override(), [0x88; 6]);
}

#[test]
fn findmy_address_override_leading_bytes() {
    let mut key = [0u8; 28];
    for (i, b) in key.iter_mut().enumerate() {
        *b = i as u8;
    }
    let data = FindMyAdvertisementData { public_key: key };
    assert_eq!(data.address_override(), [0, 1, 2, 3, 4, 5]);
}
