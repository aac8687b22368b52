use vstd::prelude::*;
use vstd::utf8::{decode_utf8, valid_utf8};
use crate::packet::{ping_reply, relay_packet, spec_ping_reply, spec_relay_packet, Packet, PacketType};

verus! {

/// Why bytes read from a client were not handled.
#[derive(Debug, Clone, Copy, PartialEq, Eq, Structural)]
pub enum ReadError {
    /// The bytes are not UTF-8.
    InvalidUtf8,
}

/// `std::str::from_utf8`: the bytes as text when they are valid UTF-8, and
/// nothing otherwise. The contract states exactly what std documents: the
/// call succeeds iff the bytes are valid UTF-8, and the text is what they
/// decode to.
#[verifier::external_body]
fn utf8_str(bytes: &[u8]) -> (res: Option<&str>)
    ensures
        res is Some <==> valid_utf8(bytes@),
        res matches Some(s) ==> s@ == decode_utf8(bytes@),
{
    std::str::from_utf8(bytes).ok()
}

/// The text of the bytes of a packet, which must be valid UTF-8.
pub fn packet_text(packet_bytes: &[u8]) -> (res: Result<&str, ReadError>)
    ensures
        res is Ok <==> valid_utf8(packet_bytes@),
        res matches Ok(s) ==> s@ == decode_utf8(packet_bytes@),
        res matches Err(e) ==> e == ReadError::InvalidUtf8,
{
    match utf8_str(packet_bytes) {
        Some(s) => Ok(s),
        None => Err(ReadError::InvalidUtf8),
    }
}

/// How the server answers a packet it read from a client.
#[derive(Debug)]
pub enum ReadReply {
    /// A transform: its data, read as transform data, goes on to the other
    /// clients under `sender`, the address of the client it was read from
    /// (see `ReadReply::transform_relay`).
    RelayTransform { sender: String },
    /// Send this packet.
    Reply(Packet),
    /// Nothing to do.
    Ignore,
}

impl ReadReply {
    /// The packet that relays a transform read from the client at `sender`;
    /// `data` is its transform data, read and encoded again. Whatever sender
    /// and flags the client's packet claimed, the relay comes from `sender`
    /// and reaches every client but that one.
    pub fn transform_relay(sender: String, data: String) -> (res: Packet)
        ensures
            spec_relay_packet(sender@, PacketType::Transform, data@, res),
    {
        relay_packet(sender, PacketType::Transform, data)
    }
}

/// The answer to `packet`, read from the client at `addr`: a transform is
/// relayed under `addr`, a ping is answered to `addr` alone, anything else is
/// dropped. The sender and flags `packet` claims play no part.
pub fn handle_read_packet(packet: &Packet, addr: &String) -> (res: ReadReply)
    ensures
        packet.ptype == PacketType::Transform ==> (res matches ReadReply::RelayTransform { sender }
            && sender@ == addr@),
        packet.ptype == PacketType::Ping ==> (res matches ReadReply::Reply(p) && spec_ping_reply(addr@, p)),
        packet.ptype != PacketType::Transform && packet.ptype != PacketType::Ping ==> res is Ignore,
{
    match packet.ptype {
        PacketType::Transform => ReadReply::RelayTransform { sender: addr.clone() },
        PacketType::Ping => ReadReply::Reply(ping_reply(addr.clone())),
        _ => ReadReply::Ignore,
    }
}

} // verus!
