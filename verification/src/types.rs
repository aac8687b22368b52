use vstd::prelude::*;

verus! {

/// The group an entity is registered under.
#[derive(Debug, Clone, Copy, PartialEq, Eq, Structural, Hash)]
pub enum EntityType {
    Player,
    Ai,
    Other,
}

/// How an AI entity behaves each tick.
#[derive(Debug, Clone, Copy, PartialEq, Eq, Structural)]
pub enum AiBehaviourType {
    PassiveGround,
}

/// What an AI entity carries besides the common entity fields: the processor
/// that runs it and its behaviour.
#[derive(Debug, Clone, Copy, PartialEq, Eq, Structural)]
pub struct AiEntityData {
    pub processor_id: u8,
    pub behaviour: AiBehaviourType,
}

/// An entity of the world. Its position `P` and rotation `R` are carried
/// through unchanged by the logic here.
#[derive(Debug)]
pub struct Entity<P, R> {
    pub id: String,
    pub entity_type: EntityType,
    pub owner: String,
    pub pos: P,
    pub rot: R,
    pub ai_data: Option<AiEntityData>,
}

impl<P, R> Entity<P, R> {
    /// Moves every field into a new entity: the result is the entity itself.
    pub fn clone(self) -> (res: Entity<P, R>)
        ensures
            res == self,
    {
        Entity {
            id: self.id,
            entity_type: self.entity_type,
            owner: self.owner,
            pos: self.pos,
            rot: self.rot,
            ai_data: self.ai_data,
        }
    }
}

} // verus!
