use vstd::prelude::*;
use crate::config::NUMBER_OF_PROCESSORS;
use crate::packet::{relay_packet, spec_relay_packet, Packet, PacketType};

verus! {

/// The address the AI processors send their packets under.
pub open spec fn ai_sender_addr() -> Seq<char> {
    seq!['0', '.', '0', '.', '0', '.', '0', ':', '8', '0', '8', '0']
}

/// The packet an AI processor sends with the transform of one of its
/// entities (`data`, already encoded): it comes from the server's address
/// and reaches every client.
pub fn ai_transform_packet(data: String) -> (res: Packet)
    ensures
        spec_relay_packet(ai_sender_addr(), PacketType::Transform, data@, res),
{
    let sender = "0.0.0.0:8080".to_owned();
    proof {
        reveal_strlit("0.0.0.0:8080");
        assert("0.0.0.0:8080"@ =~= ai_sender_addr());
    }
    relay_packet(sender, PacketType::Transform, data)
}

/// The ids of the AI processors that run: `0` through
/// `NUMBER_OF_PROCESSORS`, both included, in order.
pub fn processor_ids() -> (res: Vec<u8>)
    ensures
        res@.len() == NUMBER_OF_PROCESSORS + 1,
        forall|i: int| 0 <= i < res@.len() ==> res@[i] == i,
{
    let mut ids: Vec<u8> = Vec::new();
    let mut p: u16 = 0;
    while p <= NUMBER_OF_PROCESSORS as u16
        invariant
            p <= NUMBER_OF_PROCESSORS + 1,
            ids@.len() == p,
            forall|i: int| 0 <= i < ids@.len() ==> ids@[i] == i,
        decreases NUMBER_OF_PROCESSORS + 1 - p,
    {
        ids.push(p as u8);
        p = p + 1;
    }
    ids
}

} // verus!
