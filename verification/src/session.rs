use vstd::prelude::*;
use crate::packet::{relay_packet, spec_relay_packet, Packet, PacketType};
use crate::store::EntityStore;
use crate::types::{Entity, EntityType};

verus! {

/// Whether the client at `client` is sent `p`, a packet that came from the
/// connection at `origin`: a packet that may go back to its sender reaches
/// every client, or, when it is for its owner only, the client whose address
/// is its sender; any other packet reaches every client but its origin.
pub open spec fn spec_delivers(client: Seq<char>, p: Packet, origin: Seq<char>) -> bool {
    if p.send_back {
        if p.owner_only {
            p.sender@ == client
        } else {
            true
        }
    } else {
        origin != client
    }
}

/// The player entity of a client that has just connected.
pub open spec fn spec_player_entity<P, R>(addr: String, entity_id: String, pos: P, rot: R) -> Entity<P, R> {
    Entity { id: entity_id, entity_type: EntityType::Player, owner: addr, pos, rot, ai_data: None }
}

/// What to do after a read from a client's socket.
#[derive(Debug, Clone, Copy, PartialEq, Eq, Structural)]
pub enum ReadAction {
    /// The client closed the connection: its player is gone, tell the others.
    Disconnect,
    /// Bytes arrived: handle them as a packet.
    Handle,
}

/// One connected client: its address and the id of its player entity.
pub struct ClientSession {
    pub addr: String,
    pub entity_id: String,
}

impl ClientSession {
    /// A client at `addr` connects: its player entity, with id `entity_id`
    /// and owner `addr`, is registered under the player group at `pos`,
    /// `rot`.
    pub fn connect<P, R>(store: &mut EntityStore<P, R>, addr: String, entity_id: String, pos: P, rot: R) -> (res: ClientSession)
        ensures
            final(store)@ == old(store)@.insert(
                (EntityType::Player, entity_id@),
                spec_player_entity(addr, entity_id, pos, rot),
            ),
            final(store)@.contains_key((EntityType::Player, entity_id@)),
            final(store)@[(EntityType::Player, entity_id@)].id == entity_id,
            final(store)@[(EntityType::Player, entity_id@)].entity_type == EntityType::Player,
            final(store)@[(EntityType::Player, entity_id@)].owner == addr,
            final(store)@[(EntityType::Player, entity_id@)].pos == pos,
            final(store)@[(EntityType::Player, entity_id@)].rot == rot,
            final(store)@[(EntityType::Player, entity_id@)].ai_data is None,
            res.addr == addr,
            res.entity_id == entity_id,
    {
        let player = Entity {
            id: entity_id.clone(),
            entity_type: EntityType::Player,
            owner: addr.clone(),
            pos,
            rot,
            ai_data: None,
        };
        store.insert(EntityType::Player, entity_id.clone(), player);
        ClientSession { addr, entity_id }
    }

    /// The packet that announces this client's player to the others; `data`
    /// is the encoded spawn data.
    pub fn spawn_packet(&self, data: String) -> (res: Packet)
        ensures
            spec_relay_packet(self.addr@, PacketType::Spawn, data@, res),
    {
        relay_packet(self.addr.clone(), PacketType::Spawn, data)
    }

    /// The packet that tells the others this client has left; `data` is the
    /// encoded disconnect data.
    pub fn disconnect_packet(&self, data: String) -> (res: Packet)
        ensures
            spec_relay_packet(self.addr@, PacketType::Disconnect, data@, res),
    {
        relay_packet(self.addr.clone(), PacketType::Disconnect, data)
    }

    /// A read of `n` bytes from the client's socket finished. Zero bytes
    /// means the client has gone: its player entity is unregistered.
    pub fn on_bytes_read<P, R>(&self, store: &mut EntityStore<P, R>, n: usize) -> (res: ReadAction)
        ensures
            n == 0 ==> res == ReadAction::Disconnect && final(store)@ == old(store)@.remove(
                (EntityType::Player, self.entity_id@),
            ),
            n != 0 ==> res == ReadAction::Handle && final(store)@ == old(store)@,
    {
        if n == 0 {
            store.remove(EntityType::Player, &self.entity_id);
            ReadAction::Disconnect
        } else {
            ReadAction::Handle
        }
    }

    /// Whether this client is sent `packet`, which came from the connection
    /// at `origin`.
    pub fn delivers(&self, packet: &Packet, origin: &String) -> (res: bool)
        ensures
            res == spec_delivers(self.addr@, *packet, origin@),
    {
        if packet.send_back {
            if packet.owner_only {
                packet.sender == self.addr
            } else {
                true
            }
        } else {
            *origin != self.addr
        }
    }
}

} // verus!
