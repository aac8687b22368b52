use vindium::ai::{ai_transform_packet, processor_ids};
use vindium::config::{remaining_tick_nanos, MIN_TICK_LENGTH_MS, MIN_TICK_LENGTH_NANOS, NUMBER_OF_PROCESSORS};
use vindium::helper::{entity_id_from_samples, generate_entity_id, ENTITY_ID_LEN};
use vindium::packet::PacketType;

#[test]
fn tick_length_is_a_thirtieth_of_a_second() {
    assert_eq!(MIN_TICK_LENGTH_MS, 33);
    assert_eq!(MIN_TICK_LENGTH_NANOS, 33_000_000);
}

#[test]
fn sleep_fills_the_rest_of_the_tick() {
    assert_eq!(remaining_tick_nanos(0), Some(33_000_000));
    assert_eq!(remaining_tick_nanos(10_000_000), Some(23_000_000));
    assert_eq!(remaining_tick_nanos(32_999_999), Some(1));
    assert_eq!(remaining_tick_nanos(33_000_000), None);
    assert_eq!(remaining_tick_nanos(u128::MAX), None);
}

#[test]
fn processors_zero_through_number_of_processors_run() {
    assert_eq!(NUMBER_OF_PROCESSORS, 1);
    assert_eq!(processor_ids(), vec![0u8, 1u8]);
}

#[test]
fn ai_packets_come_from_the_server_address() {
    let p = ai_transform_packet("{\"entity_id\":\"test1\"}".to_string());
    assert_eq!(p.sender, "0.0.0.0:8080");
    assert_eq!(p.ptype, PacketType::Transform);
    assert_eq!(p.data, "{\"entity_id\":\"test1\"}");
    assert!(!p.send_back);
    assert!(!p.owner_only);
}

#[test]
fn entity_ids_are_thirty_alphanumerics() {
    let a = generate_entity_id();
    let b = generate_entity_id();
    assert_eq!(ENTITY_ID_LEN, 30);
    assert_eq!(a.chars().count(), 30);
    assert_eq!(a.len(), 30);
    assert!(a.chars().all(|c| c.is_ascii_alphanumeric()));
    assert!(b.chars().all(|c| c.is_ascii_alphanumeric()));
    assert_ne!(a, b);
}

#[test]
fn samples_spell_the_entity_id() {
    let samples: Vec<u8> = b"abcdefghijABCDEFGHIJ0123456789".to_vec();
    assert_eq!(entity_id_from_samples(&samples), "abcdefghijABCDEFGHIJ0123456789");
    let zs: Vec<u8> = vec![b'z'; 30];
    assert_eq!(entity_id_from_samples(&zs), "z".repeat(30));
}
