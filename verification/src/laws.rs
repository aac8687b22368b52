use vstd::prelude::*;
use crate::ai::ai_transform_packet;
use crate::packet::{ping_reply, relay_packet, Packet, PacketType};
use crate::read::{handle_read_packet, ReadReply};
use crate::session::{spec_player_entity, ClientSession};
use crate::store::{lacks_ai_data, runs_on};
use crate::types::{Entity, EntityType};

verus! {

/// Who is sent a broadcast packet, as `ClientSession::delivers` decides it
/// for the client of session `s` and a packet `p` that came from the
/// connection at `origin`:
/// - a packet not meant to go back reaches exactly the clients whose address
///   differs from its origin, whatever sender the packet names (so an AI
///   packet, sent under the server's address from another origin, reaches
///   every client);
/// - a packet meant to go back to everyone reaches every client;
/// - a packet for its owner only reaches exactly the client whose address is
///   the packet's sender, wherever it came from.
pub proof fn law_delivery(s: &ClientSession, p: &Packet, origin: &String, delivered: bool)
    requires
        call_ensures(ClientSession::delivers, (s, p, origin), delivered),
    ensures
        !p.send_back ==> (delivered <==> origin@ != s.addr@),
        p.send_back && !p.owner_only ==> delivered,
        p.send_back && p.owner_only ==> (delivered <==> p.sender@ == s.addr@),
{
}

/// A packet relayed with `relay_packet` carries exactly the sender, kind and
/// data it was given, and is not meant to go back to its sender.
pub proof fn law_relay_packet(sender: String, ptype: PacketType, data: String, p: Packet)
    requires
        call_ensures(relay_packet, (sender, ptype, data), p),
    ensures
        p.sender@ == sender@,
        p.ptype == ptype,
        p.data@ == data@,
        !p.send_back,
        !p.owner_only,
{
}

/// The relay of a transform read from the client at `sender` is a transform
/// from that client carrying exactly the given data, for the other clients.
pub proof fn law_transform_relay(sender: String, data: String, p: Packet)
    requires
        call_ensures(ReadReply::transform_relay, (sender, data), p),
    ensures
        p.sender@ == sender@,
        p.ptype == PacketType::Transform,
        p.data@ == data@,
        !p.send_back,
        !p.owner_only,
{
}

/// A client's spawn announcement is a spawn packet from its address with the
/// given data, and its disconnect announcement is a disconnect packet from
/// its address with the given data; both are for the other clients.
pub proof fn law_session_announcements(s: &ClientSession, data: String, spawn: Packet, gone: Packet)
    requires
        call_ensures(ClientSession::spawn_packet, (s, data), spawn),
        call_ensures(ClientSession::disconnect_packet, (s, data), gone),
    ensures
        spawn.ptype == PacketType::Spawn,
        spawn.sender@ == s.addr@,
        spawn.data@ == data@,
        !spawn.send_back && !spawn.owner_only,
        gone.ptype == PacketType::Disconnect,
        gone.sender@ == s.addr@,
        gone.data@ == data@,
        !gone.send_back && !gone.owner_only,
{
}

/// The answer to a ping from `sender` is an empty ping from `sender` that
/// goes back to that client alone.
pub proof fn law_ping_reply(sender: String, p: Packet)
    requires
        call_ensures(ping_reply, (sender,), p),
    ensures
        p.sender@ == sender@,
        p.ptype == PacketType::Ping,
        p.data@.len() == 0,
        p.send_back,
        p.owner_only,
{
}

/// How a packet read from the client at `addr` is answered: a ping with an
/// empty ping to `addr` alone, a transform by a relay under `addr`, whatever
/// sender and flags the packet names; anything else not at all.
pub proof fn law_read_reply(packet: &Packet, addr: &String, reply: ReadReply)
    requires
        call_ensures(handle_read_packet, (packet, addr), reply),
    ensures
        packet.ptype == PacketType::Ping ==> (reply matches ReadReply::Reply(q) && q.sender@ == addr@
            && q.ptype == PacketType::Ping && q.data@.len() == 0 && q.send_back && q.owner_only),
        packet.ptype == PacketType::Transform ==> (reply matches ReadReply::RelayTransform { sender }
            && sender@ == addr@),
        packet.ptype != PacketType::Ping && packet.ptype != PacketType::Transform ==> reply is Ignore,
{
}

/// A transform an AI processor sends comes from the server's address with
/// exactly the given data, and reaches every client whose address differs
/// from the connection it was broadcast from.
pub proof fn law_ai_transform_reaches_clients(
    data: String,
    p: Packet,
    s: &ClientSession,
    origin: &String,
    delivered: bool,
)
    requires
        call_ensures(ai_transform_packet, (data,), p),
        call_ensures(ClientSession::delivers, (s, &p, origin), delivered),
    ensures
        p.sender@ == seq!['0', '.', '0', '.', '0', '.', '0', ':', '8', '0', '8', '0'],
        p.ptype == PacketType::Transform,
        p.data@ == data@,
        delivered <==> origin@ != s.addr@,
{
}

/// The player entity of a newly connected client has the given id, is a
/// player, is owned by the client's address, stands at the given position
/// and rotation, and carries no AI data.
pub proof fn law_player_entity<P, R>(addr: String, entity_id: String, pos: P, rot: R)
    ensures
        spec_player_entity(addr, entity_id, pos, rot).id == entity_id,
        spec_player_entity(addr, entity_id, pos, rot).entity_type == EntityType::Player,
        spec_player_entity(addr, entity_id, pos, rot).owner == addr,
        spec_player_entity(addr, entity_id, pos, rot).pos == pos,
        spec_player_entity(addr, entity_id, pos, rot).rot == rot,
        spec_player_entity(addr, entity_id, pos, rot).ai_data is None,
{
}

/// After a write to the store, a read of the same key gives back what was
/// written, and every other key reads as before.
pub proof fn law_read_after_write<P, R>(
    m: Map<(EntityType, Seq<char>), Entity<P, R>>,
    k: (EntityType, Seq<char>),
    e: Entity<P, R>,
    other: (EntityType, Seq<char>),
)
    requires
        other != k,
    ensures
        m.insert(k, e).contains_key(k),
        m.insert(k, e)[k] == e,
        m.insert(k, e).contains_key(other) == m.contains_key(other),
        m.contains_key(other) ==> m.insert(k, e)[other] == m[other],
        !m.remove(k).contains_key(k),
        m.remove(k).contains_key(other) == m.contains_key(other),
{
}

/// A client whose entity id was not registered before leaves the world as it
/// found it once it has connected and disconnected.
pub proof fn law_connect_then_disconnect<P, R>(
    m: Map<(EntityType, Seq<char>), Entity<P, R>>,
    addr: String,
    entity_id: String,
    pos: P,
    rot: R,
)
    requires
        !m.contains_key((EntityType::Player, entity_id@)),
    ensures
        m.insert((EntityType::Player, entity_id@), spec_player_entity(addr, entity_id, pos, rot)).remove(
            (EntityType::Player, entity_id@),
        ) == m,
{
    assert(m.insert((EntityType::Player, entity_id@), spec_player_entity(addr, entity_id, pos, rot)).remove(
        (EntityType::Player, entity_id@),
    ) =~= m);
}

/// No AI entity is run by two processors, and an AI entity that is run by a
/// processor has AI data.
pub proof fn law_one_processor_per_entity<P, R>(
    m: Map<(EntityType, Seq<char>), Entity<P, R>>,
    p1: u8,
    p2: u8,
    k: Seq<char>,
)
    requires
        p1 != p2,
    ensures
        !(runs_on(m, p1, k) && runs_on(m, p2, k)),
        runs_on(m, p1, k) ==> !lacks_ai_data(m, k),
{
}

} // verus!
