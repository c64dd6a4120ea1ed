use vstd::prelude::*;

verus! {

/// A reference to one chat peer in the remote service's own addressing
/// scheme: nothing, the account itself, a plain chat, a user or a channel
/// (each with an access hash), or a peer resolved through a message, carrying
/// a nested peer, the message id, and the resolved identity.
#[derive(PartialEq, Eq, Debug)]
pub enum PeerRef {
    Empty,
    PeerSelf,
    Chat { chat_id: i64 },
    User { user_id: i64, access_hash: i64 },
    Channel { channel_id: i64, access_hash: i64 },
    UserFromMessage { peer: Box<PeerRef>, msg_id: i32, user_id: i64 },
    ChannelFromMessage { peer: Box<PeerRef>, msg_id: i32, channel_id: i64 },
}

impl Clone for PeerRef {
    /// The clone is the same peer reference.
    fn clone(&self) -> (r: Self)
        ensures
            r == *self,
        decreases *self,
    {
        match self {
            PeerRef::Empty => PeerRef::Empty,
            PeerRef::PeerSelf => PeerRef::PeerSelf,
            PeerRef::Chat { chat_id } => PeerRef::Chat { chat_id: *chat_id },
            PeerRef::User { user_id, access_hash } => PeerRef::User {
                user_id: *user_id,
                access_hash: *access_hash,
            },
            PeerRef::Channel { channel_id, access_hash } => PeerRef::Channel {
                channel_id: *channel_id,
                access_hash: *access_hash,
            },
            PeerRef::UserFromMessage { peer, msg_id, user_id } => PeerRef::UserFromMessage {
                peer: Box::new((**peer).clone()),
                msg_id: *msg_id,
                user_id: *user_id,
            },
            PeerRef::ChannelFromMessage { peer, msg_id, channel_id } => {
                PeerRef::ChannelFromMessage {
                    peer: Box::new((**peer).clone()),
                    msg_id: *msg_id,
                    channel_id: *channel_id,
                }
            },
        }
    }
}

/// Structural equality of two peer references.
pub fn peer_eq(a: &PeerRef, b: &PeerRef) -> (r: bool)
    ensures
        r == (*a == *b),
    decreases *a,
{
    match (a, b) {
        (PeerRef::Empty, PeerRef::Empty) => true,
        (PeerRef::PeerSelf, PeerRef::PeerSelf) => true,
        (PeerRef::Chat { chat_id: c1 }, PeerRef::Chat { chat_id: c2 }) => *c1 == *c2,
        (
            PeerRef::User { user_id: u1, access_hash: h1 },
            PeerRef::User { user_id: u2, access_hash: h2 },
        ) => *u1 == *u2 && *h1 == *h2,
        (
            PeerRef::Channel { channel_id: c1, access_hash: h1 },
            PeerRef::Channel { channel_id: c2, access_hash: h2 },
        ) => *c1 == *c2 && *h1 == *h2,
        (
            PeerRef::UserFromMessage { peer: p1, msg_id: m1, user_id: u1 },
            PeerRef::UserFromMessage { peer: p2, msg_id: m2, user_id: u2 },
        ) => *m1 == *m2 && *u1 == *u2 && peer_eq(p1, p2),
        (
            PeerRef::ChannelFromMessage { peer: p1, msg_id: m1, channel_id: c1 },
            PeerRef::ChannelFromMessage { peer: p2, msg_id: m2, channel_id: c2 },
        ) => *m1 == *m2 && *c1 == *c2 && peer_eq(p1, p2),
        _ => false,
    }
}

/// Whether the list holds this peer.
pub fn contains_peer(v: &Vec<PeerRef>, p: &PeerRef) -> (r: bool)
    ensures
        r == v@.contains(*p),
{
    let mut i: usize = 0;
    while i < v.len()
        invariant
            i <= v@.len(),
            forall|k: int| 0 <= k < i ==> v@[k] != *p,
        decreases v@.len() - i,
    {
        if peer_eq(&v[i], p) {
            proof {
                assert(v@[i as int] == *p);
            }
            return true;
        }
        i += 1;
    }
    proof {
        assert(!v@.contains(*p));
    }
    false
}

/// An element-wise copy of a peer list.
pub fn clone_peers(v: &Vec<PeerRef>) -> (r: Vec<PeerRef>)
    ensures
        r@ == v@,
{
    let mut r: Vec<PeerRef> = Vec::new();
    let mut i: usize = 0;
    while i < v.len()
        invariant
            i <= v@.len(),
            r@ == v@.subrange(0, i as int),
        decreases v@.len() - i,
    {
        r.push(v[i].clone());
        proof {
            assert(r@ =~= v@.subrange(0, i + 1 as int));
        }
        i += 1;
    }
    proof {
        assert(r@ =~= v@);
    }
    r
}

} // verus!
