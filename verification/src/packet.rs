use vstd::prelude::*;

verus! {

/// What the `data` of a packet holds.
#[derive(Debug, Clone, Copy, PartialEq, Eq, Structural)]
pub enum PacketType {
    Accept,
    Transform,
    Spawn,
    Disconnect,
    Ping,
    Chat,
}

/// A message between server and clients. `sender` is the address of the
/// client it came from (or the server's own address), `data` the payload of
/// kind `ptype`; `send_back` says whether the packet may reach the client it
/// came from, `owner_only` whether it reaches that client alone.
#[derive(Debug, Clone)]
pub struct Packet {
    pub sender: String,
    pub ptype: PacketType,
    pub data: String,
    pub send_back: bool,
    pub owner_only: bool,
}

/// Payload of a ping.
#[derive(Debug, Clone)]
pub struct PingData {
    pub entity_id: String,
    pub ping_code: String,
}

/// A packet for every client but the one it came from.
pub open spec fn spec_relay_packet(sender: Seq<char>, ptype: PacketType, data: Seq<char>, p: Packet) -> bool {
    &&& p.sender@ == sender
    &&& p.ptype == ptype
    &&& p.data@ == data
    &&& !p.send_back
    &&& !p.owner_only
}

/// An empty ping that goes back to `sender` alone.
pub open spec fn spec_ping_reply(sender: Seq<char>, p: Packet) -> bool {
    &&& p.sender@ == sender
    &&& p.ptype == PacketType::Ping
    &&& p.data@ == Seq::<char>::empty()
    &&& p.send_back
    &&& p.owner_only
}

/// A packet from `sender` of kind `ptype` carrying `data`, sent to every
/// client except the one it came from.
pub fn relay_packet(sender: String, ptype: PacketType, data: String) -> (res: Packet)
    ensures
        spec_relay_packet(sender@, ptype, data@, res),
{
    Packet { sender, ptype, data, send_back: false, owner_only: false }
}

/// The answer to a ping from `sender`: an empty ping that goes back to
/// `sender` alone.
pub fn ping_reply(sender: String) -> (res: Packet)
    ensures
        spec_ping_reply(sender@, res),
{
    Packet { sender, ptype: PacketType::Ping, data: String::new(), send_back: true, owner_only: true }
}

} // verus!
