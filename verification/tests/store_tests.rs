use vindium::store::EntityStore;
use vindium::types::{AiBehaviourType, AiEntityData, Entity, EntityType};

type Pos = [f32; 3];
type Rot = [f32; 4];

fn entity(id: &str, kind: EntityType, ai: Option<AiEntityData>) -> Entity<Pos, Rot> {
    Entity {
        id: id.to_string(),
        entity_type: kind,
        owner: "server".to_string(),
        pos: [0.0, 0.0, 0.0],
        rot: [0.0, 0.0, 0.0, 0.0],
        ai_data: ai,
    }
}

fn ai(processor_id: u8) -> Option<AiEntityData> {
    Some(AiEntityData { processor_id, behaviour: AiBehaviourType::PassiveGround })
}

#[test]
fn new_store_is_empty() {
    let store: EntityStore<Pos, Rot> = EntityStore::new();
    assert_eq!(store.len(), 0);
    assert!(!store.contains(EntityType::Player, &"a".to_string()));
}

#[test]
fn get_after_insert_returns_the_entity() {
    let mut store = EntityStore::new();
    let prev = store.insert(EntityType::Player, "p1".to_string(), entity("p1", EntityType::Player, None));
    assert!(prev.is_none());
    let got = store.get(EntityType::Player, &"p1".to_string()).unwrap();
    assert_eq!(got.id, "p1");
    assert_eq!(got.owner, "server");
    assert_eq!(store.len(), 1);
}

#[test]
fn same_key_in_another_group_is_another_entity() {
    let mut store = EntityStore::new();
    store.insert(EntityType::Player, "x".to_string(), entity("player", EntityType::Player, None));
    store.insert(EntityType::Ai, "x".to_string(), entity("ai", EntityType::Ai, ai(0)));
    assert_eq!(store.len(), 2);
    assert_eq!(store.get(EntityType::Player, &"x".to_string()).unwrap().id, "player");
    assert_eq!(store.get(EntityType::Ai, &"x".to_string()).unwrap().id, "ai");
    assert!(store.get(EntityType::Other, &"x".to_string()).is_none());
}

#[test]
fn insert_replaces_and_returns_previous() {
    let mut store = EntityStore::new();
    store.insert(EntityType::Player, "k".to_string(), entity("first", EntityType::Player, None));
    let prev = store.insert(EntityType::Player, "k".to_string(), entity("second", EntityType::Player, None));
    assert_eq!(prev.unwrap().id, "first");
    assert_eq!(store.len(), 1);
    assert_eq!(store.get(EntityType::Player, &"k".to_string()).unwrap().id, "second");
}

#[test]
fn remove_unregisters_and_returns_the_entity() {
    let mut store = EntityStore::new();
    store.insert(EntityType::Player, "a".to_string(), entity("a", EntityType::Player, None));
    store.insert(EntityType::Player, "b".to_string(), entity("b", EntityType::Player, None));
    let removed = store.remove(EntityType::Player, &"a".to_string());
    assert_eq!(removed.unwrap().id, "a");
    assert!(!store.contains(EntityType::Player, &"a".to_string()));
    assert!(store.contains(EntityType::Player, &"b".to_string()));
    assert_eq!(store.len(), 1);
    assert!(store.remove(EntityType::Player, &"a".to_string()).is_none());
}

#[test]
fn ai_plan_selects_entities_of_the_processor() {
    let mut store = EntityStore::new();
    store.insert(EntityType::Ai, "test1".to_string(), entity("test1", EntityType::Ai, ai(0)));
    store.insert(EntityType::Ai, "test2".to_string(), entity("test2", EntityType::Ai, ai(1)));
    store.insert(EntityType::Ai, "lost".to_string(), entity("lost", EntityType::Ai, None));
    store.insert(EntityType::Player, "p".to_string(), entity("p", EntityType::Player, ai(0)));
    store.insert(EntityType::Other, "o".to_string(), entity("o", EntityType::Other, None));

    let plan0 = store.plan_ai_tick(0);
    let keys0: Vec<&str> = plan0.tasks.iter().map(|t| t.key.as_str()).collect();
    assert_eq!(keys0, vec!["test1"]);
    assert_eq!(plan0.tasks[0].behaviour, AiBehaviourType::PassiveGround);
    assert_eq!(plan0.missing_ai_data, vec!["lost".to_string()]);

    let plan1 = store.plan_ai_tick(1);
    let keys1: Vec<&str> = plan1.tasks.iter().map(|t| t.key.as_str()).collect();
    assert_eq!(keys1, vec!["test2"]);
    assert_eq!(plan1.missing_ai_data, vec!["lost".to_string()]);

    let plan2 = store.plan_ai_tick(2);
    assert!(plan2.tasks.is_empty());
}

#[test]
fn entity_clone_keeps_every_field() {
    let e = entity("id", EntityType::Ai, ai(3));
    let c = e.clone();
    assert_eq!(c.id, "id");
    assert_eq!(c.entity_type, EntityType::Ai);
    assert_eq!(c.owner, "server");
    assert_eq!(c.ai_data, ai(3));
}
