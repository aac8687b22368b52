use vindium::packet::{ping_reply, relay_packet, PacketType};
use vindium::session::{ClientSession, ReadAction};
use vindium::store::EntityStore;
use vindium::types::EntityType;

#[test]
fn connect_registers_the_player_entity() {
    let mut store: EntityStore<u32, u32> = EntityStore::new();
    let s = ClientSession::connect(&mut store, "127.0.0.1:5000".to_string(), "abc".to_string(), 7, 9);
    assert_eq!(s.addr, "127.0.0.1:5000");
    assert_eq!(s.entity_id, "abc");
    let e = store.get(EntityType::Player, &"abc".to_string()).unwrap();
    assert_eq!(e.id, "abc");
    assert_eq!(e.entity_type, EntityType::Player);
    assert_eq!(e.owner, "127.0.0.1:5000");
    assert_eq!(e.pos, 7);
    assert_eq!(e.rot, 9);
    assert!(e.ai_data.is_none());
}

#[test]
fn zero_byte_read_disconnects_and_restores_the_store() {
    let mut store: EntityStore<u32, u32> = EntityStore::new();
    store.insert(EntityType::Ai, "npc".to_string(), vindium::types::Entity {
        id: "npc".to_string(),
        entity_type: EntityType::Ai,
        owner: "server".to_string(),
        pos: 1,
        rot: 2,
        ai_data: None,
    });
    let s = ClientSession::connect(&mut store, "127.0.0.1:5000".to_string(), "abc".to_string(), 0, 0);
    assert_eq!(store.len(), 2);
    assert_eq!(s.on_bytes_read(&mut store, 12), ReadAction::Handle);
    assert_eq!(store.len(), 2);
    assert_eq!(s.on_bytes_read(&mut store, 0), ReadAction::Disconnect);
    assert_eq!(store.len(), 1);
    assert!(!store.contains(EntityType::Player, &"abc".to_string()));
    assert!(store.contains(EntityType::Ai, &"npc".to_string()));
}

#[test]
fn spawn_and_disconnect_packets_go_to_the_others() {
    let mut store: EntityStore<u32, u32> = EntityStore::new();
    let s = ClientSession::connect(&mut store, "10.0.0.1:1".to_string(), "id".to_string(), 0, 0);
    let spawn = s.spawn_packet("{\"entity_id\":\"id\"}".to_string());
    assert_eq!(spawn.sender, "10.0.0.1:1");
    assert_eq!(spawn.ptype, PacketType::Spawn);
    assert_eq!(spawn.data, "{\"entity_id\":\"id\"}");
    assert!(!spawn.send_back && !spawn.owner_only);
    let gone = s.disconnect_packet("d".to_string());
    assert_eq!(gone.ptype, PacketType::Disconnect);
    assert_eq!(gone.sender, "10.0.0.1:1");
    assert_eq!(gone.data, "d");
}

fn session(addr: &str) -> ClientSession {
    ClientSession { addr: addr.to_string(), entity_id: "e".to_string() }
}

#[test]
fn relayed_packet_is_not_echoed_to_its_origin() {
    let p = relay_packet("a:1".to_string(), PacketType::Transform, "{}".to_string());
    assert!(!session("a:1").delivers(&p, &"a:1".to_string()));
    assert!(session("b:2").delivers(&p, &"a:1".to_string()));
}

#[test]
fn ping_reply_goes_to_its_owner_only() {
    let p = ping_reply("a:1".to_string());
    assert!(session("a:1").delivers(&p, &"a:1".to_string()));
    assert!(!session("b:2").delivers(&p, &"a:1".to_string()));
}

#[test]
fn send_back_packet_for_everyone_reaches_all() {
    let mut p = relay_packet("a:1".to_string(), PacketType::Chat, "hi".to_string());
    p.send_back = true;
    assert!(session("a:1").delivers(&p, &"a:1".to_string()));
    assert!(session("b:2").delivers(&p, &"a:1".to_string()));
}

#[test]
fn owner_only_follows_sender_not_origin() {
    let mut p = relay_packet("a:1".to_string(), PacketType::Chat, "hi".to_string());
    p.send_back = true;
    p.owner_only = true;
    assert!(session("a:1").delivers(&p, &"c:3".to_string()));
    assert!(!session("c:3").delivers(&p, &"c:3".to_string()));
}
