use lightsync::capture::average_color;
use lightsync::codec;
use lightsync::dispatch::{WriteOutcome, aggregate};
use lightsync::errors::LightError;
use lightsync::manager::LightManager;
use lightsync::matcher::{AdvertisedDevice, match_candidates};
use lightsync::registry::LightRegistry;
use lightsync::resolver::{
    CandidateOutcome, CharacteristicId, PROTOCOL_CHARACTERISTIC_UUID, PendingConnection,
    ReadyLight, ResolveState, find_characteristic, resolve_candidate,
};

fn protocol_char(service_uuid: u128) -> CharacteristicId {
    CharacteristicId {
        uuid: PROTOCOL_CHARACTERISTIC_UUID,
        service_uuid,
    }
}

fn other_char(uuid: u128) -> CharacteristicId {
    CharacteristicId {
        uuid,
        service_uuid: 0x1111,
    }
}

fn ok_outcome(service_uuid: u128) -> CandidateOutcome {
    CandidateOutcome {
        connect_ok: true,
        services_ok: true,
        characteristics: vec![other_char(0xabc), protocol_char(service_uuid)],
    }
}

fn named(id: u64, name: &str) -> AdvertisedDevice {
    AdvertisedDevice {
        id,
        name: Some(name.as_bytes().to_vec()),
    }
}

fn unnamed(id: u64) -> AdvertisedDevice {
    AdvertisedDevice { id, name: None }
}

// --- frame codec ---

#[test]
fn color_frame_example() {
    let frame = codec::encode(&vec![0x33, 0x05, 0x02, 255, 0, 128]);
    let mut expected = vec![0x33, 0x05, 0x02, 255, 0, 128];
    expected.extend(std::iter::repeat(0u8).take(13));
    expected.push(0x33 ^ 0x05 ^ 0x02 ^ 255 ^ 0 ^ 128);
    assert_eq!(frame.len(), 20);
    assert_eq!(frame.bytes(), &expected);
}

#[test]
fn create_frame_pads_and_appends_checksum() {
    let mut bytes = vec![0x33, 0x01, 0x01];
    codec::create_frame(&mut bytes);
    assert_eq!(bytes.len(), 20);
    assert_eq!(&bytes[..3], &[0x33, 0x01, 0x01]);
    assert!(bytes[3..19].iter().all(|&b| b == 0));
    assert_eq!(bytes[19], 0x33 ^ 0x01 ^ 0x01);
}

#[test]
fn checksum_is_xor_of_first_nineteen_bytes() {
    let frame = codec::encode(&vec![0x33, 0x04, 0xfe]);
    let checksum = frame.bytes()[..19].iter().fold(0u8, |a, &x| a ^ x);
    assert_eq!(frame.bytes()[19], checksum);
}

#[test]
fn encode_is_deterministic_and_stateless() {
    let command = vec![0x33, 0x05, 0x02, 17, 42, 99];
    let first = codec::encode(&command);
    let second = codec::encode(&command);
    assert_eq!(first, second);
    assert_eq!(first.bytes(), second.bytes());
}

#[test]
fn empty_command_frame_is_all_zero() {
    let frame = codec::encode(&Vec::new());
    assert_eq!(frame.bytes(), &vec![0u8; 20]);
}

// --- device matcher ---

#[test]
fn unnamed_device_never_matches() {
    assert!(!lightsync::matcher::matches(None, &b"Lamp".to_vec()));
    assert!(!lightsync::matcher::matches(None, &Vec::new()));
}

#[test]
fn named_device_matches_byte_prefix() {
    let name = b"Lamp-A".to_vec();
    assert!(lightsync::matcher::matches(Some(&name), &b"Lamp".to_vec()));
    assert!(lightsync::matcher::matches(Some(&name), &b"Lamp-A".to_vec()));
    assert!(lightsync::matcher::matches(Some(&name), &Vec::new()));
    assert!(!lightsync::matcher::matches(Some(&name), &b"lamp".to_vec()));
    assert!(!lightsync::matcher::matches(Some(&name), &b"Lamp-AB".to_vec()));
    assert!(!lightsync::matcher::matches(Some(&name), &b"Desk".to_vec()));
}

#[test]
fn match_candidates_keeps_scan_order() {
    let scanned = vec![
        named(0, "Lamp-A"),
        named(1, "Desk-1"),
        named(2, "Lamp-B"),
        unnamed(3),
    ];
    let matched = match_candidates(&scanned, &b"Lamp".to_vec());
    assert_eq!(matched, vec![0, 2]);
}

// --- connection resolver ---

#[test]
fn resolver_reports_connect_failure() {
    let outcome = CandidateOutcome {
        connect_ok: false,
        services_ok: true,
        characteristics: vec![protocol_char(0x77)],
    };
    assert_eq!(resolve_candidate(5, &outcome), Err(LightError::ConnectError));
}

#[test]
fn resolver_reports_discovery_failure() {
    let outcome = CandidateOutcome {
        connect_ok: true,
        services_ok: false,
        characteristics: vec![protocol_char(0x77)],
    };
    assert_eq!(resolve_candidate(5, &outcome), Err(LightError::DiscoveryError));
}

#[test]
fn resolver_reports_missing_characteristic() {
    let outcome = CandidateOutcome {
        connect_ok: true,
        services_ok: true,
        characteristics: vec![other_char(0xabc), other_char(0xdef)],
    };
    assert_eq!(
        resolve_candidate(5, &outcome),
        Err(LightError::CharacteristicNotFound)
    );
}

#[test]
fn resolver_yields_ready_light() {
    let outcome = ok_outcome(0x4242);
    let light = resolve_candidate(7, &outcome).unwrap();
    assert_eq!(light.device_id, 7);
    assert_eq!(light.characteristic.uuid, PROTOCOL_CHARACTERISTIC_UUID);
    assert_eq!(light.characteristic.service_uuid, 0x4242);
}

#[test]
fn find_characteristic_picks_first_protocol_match() {
    let chars = vec![other_char(0xabc), protocol_char(0xaaaa), protocol_char(0xbbbb)];
    let found = find_characteristic(&chars).unwrap();
    assert_eq!(found.service_uuid, 0xaaaa);
    assert_eq!(find_characteristic(&vec![other_char(0xabc)]), None);
    assert_eq!(find_characteristic(&Vec::new()), None);
}

#[test]
fn state_machine_walks_to_ready() {
    let mut pending = PendingConnection::new(9);
    assert_eq!(pending.state, ResolveState::Discovered);
    pending.begin_connect();
    assert_eq!(pending.state, ResolveState::Connecting);
    pending.on_connect_result(true);
    assert_eq!(pending.state, ResolveState::ServicesDiscovering);
    pending.on_services_result(true);
    assert_eq!(pending.state, ResolveState::CharacteristicResolving);
    pending.resolve_characteristic(&vec![protocol_char(0x55)]);
    assert_eq!(
        pending.state,
        ResolveState::Ready {
            light: ReadyLight {
                device_id: 9,
                characteristic: protocol_char(0x55),
            },
        }
    );
}

#[test]
fn state_machine_records_connect_failure() {
    let mut pending = PendingConnection::new(9);
    pending.begin_connect();
    pending.on_connect_result(false);
    assert_eq!(
        pending.state,
        ResolveState::Failed {
            error: LightError::ConnectError,
        }
    );
}

// --- registry ---

#[test]
fn registry_keeps_insertion_order() {
    let mut registry = LightRegistry::new();
    assert_eq!(registry.len(), 0);
    let first = ReadyLight {
        device_id: 3,
        characteristic: protocol_char(0xa),
    };
    let second = ReadyLight {
        device_id: 1,
        characteristic: protocol_char(0xb),
    };
    registry.add(first);
    registry.add(second);
    assert_eq!(registry.len(), 2);
    assert_eq!(registry.get(0), &first);
    assert_eq!(registry.get(1), &second);
    assert_eq!(registry.all(), &vec![first, second]);
}

// --- command dispatcher ---

#[test]
fn dispatch_records_partial_failure() {
    let targets = vec![
        ReadyLight { device_id: 1, characteristic: protocol_char(0xa) },
        ReadyLight { device_id: 2, characteristic: protocol_char(0xb) },
        ReadyLight { device_id: 3, characteristic: protocol_char(0xc) },
    ];
    let outcomes = vec![
        WriteOutcome::Sent,
        WriteOutcome::TransportWriteError,
        WriteOutcome::Sent,
    ];
    let result = aggregate(&targets, &outcomes);
    assert_eq!(result.len(), 3);
    assert_eq!(result.success_count(), 2);
    assert_eq!(result.failure_count(), 1);
    assert!(!result.all_sent());
    assert_eq!(result.get(0).device_id, 1);
    assert_eq!(result.get(0).outcome, WriteOutcome::Sent);
    assert_eq!(result.get(1).device_id, 2);
    assert_eq!(result.get(1).outcome, WriteOutcome::TransportWriteError);
    assert_eq!(result.get(2).device_id, 3);
    assert_eq!(result.get(2).outcome, WriteOutcome::Sent);
}

#[test]
fn dispatch_reports_full_success() {
    let targets = vec![
        ReadyLight { device_id: 1, characteristic: protocol_char(0xa) },
        ReadyLight { device_id: 2, characteristic: protocol_char(0xb) },
    ];
    let outcomes = vec![WriteOutcome::Sent, WriteOutcome::Sent];
    let result = aggregate(&targets, &outcomes);
    assert!(result.all_sent());
    assert_eq!(result.success_count(), 2);
    assert_eq!(result.failure_count(), 0);
}

// --- light manager ---

#[test]
fn connect_succeeds_with_enough_lights() {
    let mut manager = LightManager::new();
    let scanned = vec![named(0, "Lamp-A"), named(1, "Lamp-B")];
    let outcomes = vec![ok_outcome(0xa), ok_outcome(0xb)];
    let result = manager.connect_to_lights(&b"Lamp".to_vec(), 2, &scanned, &outcomes);
    assert_eq!(result, Ok(()));
    let registry = manager.registry();
    assert_eq!(registry.len(), 2);
    assert_eq!(registry.get(0).device_id, 0);
    assert_eq!(registry.get(0).characteristic.service_uuid, 0xa);
    assert_eq!(registry.get(1).device_id, 1);
    assert_eq!(registry.get(1).characteristic.service_uuid, 0xb);
}

#[test]
fn connect_fails_with_insufficient_lights() {
    let mut manager = LightManager::new();
    let scanned = vec![named(0, "Lamp-A"), named(1, "Lamp-B")];
    let outcomes = vec![ok_outcome(0xa), ok_outcome(0xb)];
    let result = manager.connect_to_lights(&b"Lamp".to_vec(), 3, &scanned, &outcomes);
    assert_eq!(
        result,
        Err(LightError::InsufficientLights {
            found: 2,
            required: 3,
        })
    );
    assert_eq!(manager.registry().len(), 0);
}

#[test]
fn connect_skips_failed_candidate_without_aborting_others() {
    let mut manager = LightManager::new();
    let scanned = vec![named(0, "Lamp-A"), named(1, "Lamp-B"), named(2, "Lamp-C")];
    let failed = CandidateOutcome {
        connect_ok: false,
        services_ok: false,
        characteristics: Vec::new(),
    };
    let outcomes = vec![ok_outcome(0xa), failed, ok_outcome(0xc)];
    let result = manager.connect_to_lights(&b"Lamp".to_vec(), 2, &scanned, &outcomes);
    assert_eq!(result, Ok(()));
    let registry = manager.registry();
    assert_eq!(registry.len(), 2);
    assert_eq!(registry.get(0).device_id, 0);
    assert_eq!(registry.get(1).device_id, 2);
}

#[test]
fn connect_ignores_devices_outside_prefix() {
    let mut manager = LightManager::new();
    let scanned = vec![named(0, "Desk-1"), named(1, "Lamp-A"), unnamed(2)];
    let outcomes = vec![ok_outcome(0xa)];
    let result = manager.connect_to_lights(&b"Lamp".to_vec(), 1, &scanned, &outcomes);
    assert_eq!(result, Ok(()));
    assert_eq!(manager.registry().len(), 1);
    assert_eq!(manager.registry().get(0).device_id, 1);
}

#[test]
fn set_operations_encode_expected_frames() {
    let mut manager = LightManager::new();
    let scanned = vec![named(4, "Lamp-A")];
    let outcomes = vec![ok_outcome(0xa)];
    manager
        .connect_to_lights(&b"Lamp".to_vec(), 1, &scanned, &outcomes)
        .unwrap();

    let power = manager.set_power(true);
    assert_eq!(power.frame, codec::encode(&vec![0x33, 0x01, 0x01]));
    assert_eq!(power.targets.len(), 1);
    assert_eq!(power.targets[0].device_id, 4);

    let power_off = manager.set_power(false);
    assert_eq!(power_off.frame, codec::encode(&vec![0x33, 0x01, 0x00]));

    let brightness = manager.set_brightness(0x7f);
    assert_eq!(brightness.frame, codec::encode(&vec![0x33, 0x04, 0x7f]));

    let color = manager.set_color(255, 0, 128);
    assert_eq!(color.frame, codec::encode(&vec![0x33, 0x05, 0x02, 255, 0, 128]));
    assert_eq!(color.targets.len(), 1);
}

#[test]
fn sending_identical_frame_twice_changes_nothing() {
    let mut manager = LightManager::new();
    let scanned = vec![named(0, "Lamp-A")];
    let outcomes = vec![ok_outcome(0xa)];
    manager
        .connect_to_lights(&b"Lamp".to_vec(), 1, &scanned, &outcomes)
        .unwrap();
    let first = manager.set_color(10, 20, 30);
    let second = manager.set_color(10, 20, 30);
    assert_eq!(first.frame, second.frame);
    assert_eq!(first.targets, second.targets);
}

// --- capture averaging ---

#[test]
fn average_color_of_uniform_frame() {
    // 2x2 pixels, BGRA, stride 8: every pixel is b=4, g=8, r=12.
    let row: Vec<u8> = vec![4, 8, 12, 255, 4, 8, 12, 255];
    let mut buffer = row.clone();
    buffer.extend(row);
    let (r, g, b) = average_color(&buffer, 2, 2, 8);
    assert_eq!((r, g, b), (12, 8, 4));
}

#[test]
fn average_color_truncates_toward_zero() {
    // 2x1 pixels: blue channel 1 and 2 -> mean 1 (integer division),
    // green 0 and 3 -> 1, red 200 and 201 -> 200.
    let buffer: Vec<u8> = vec![1, 0, 200, 255, 2, 3, 201, 255];
    let (r, g, b) = average_color(&buffer, 2, 1, 8);
    assert_eq!((r, g, b), (200, 1, 1));
}

#[test]
fn average_color_skips_stride_padding() {
    // 1x2 pixels with stride 8: bytes past the pixel in each row are ignored.
    let buffer: Vec<u8> = vec![10, 20, 30, 255, 99, 99, 99, 99, 50, 60, 70, 255, 99, 99, 99, 99];
    let (r, g, b) = average_color(&buffer, 1, 2, 8);
    assert_eq!((r, g, b), (50, 40, 30));
}
