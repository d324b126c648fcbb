//! The callback bridge: turning "a message of this type arrived" events
//! from the bus into an invocation of the handler registered for that
//! type.
//!
//! The registry of handlers is modelled here and every operation on it is
//! verified; the handler itself is an opaque token — invoking the real
//! handler, and holding the exclusion lock around registry mutation, is
//! the caller's job on the delivery thread.

use vstd::prelude::*;

use sbp::SbpMessage;

use crate::codec::CRC_LEN;
use crate::codec::HEADER_LEN;

verus! {

/// One registered handler: the message type it subscribes to, the opaque
/// registration node the protocol layer handed out, and the bus
/// subscription key to release on unregistration.
#[derive(Debug, Clone, Copy, PartialEq, Eq, Structural)]
pub struct Callback {
    pub msg_type: u16,
    pub node: u64,
    pub key: u64,
}

/// The first registered entry for a message type at or after position `i`.
pub open spec fn find_by_type_from(s: Seq<Callback>, msg_type: u16, i: int) -> Option<int>
    decreases s.len() - i,
{
    if i < 0 || i >= s.len() {
        None
    } else if s[i].msg_type == msg_type {
        Some(i)
    } else {
        find_by_type_from(s, msg_type, i + 1)
    }
}

/// The first registered entry for a message type, if any.
pub open spec fn spec_find_by_type(s: Seq<Callback>, msg_type: u16) -> Option<int> {
    find_by_type_from(s, msg_type, 0)
}

/// The first registered entry with a registration node at or after
/// position `i`.
pub open spec fn find_by_node_from(s: Seq<Callback>, node: u64, i: int) -> Option<int>
    decreases s.len() - i,
{
    if i < 0 || i >= s.len() {
        None
    } else if s[i].node == node {
        Some(i)
    } else {
        find_by_node_from(s, node, i + 1)
    }
}

/// The first registered entry with a registration node, if any.
pub open spec fn spec_find_by_node(s: Seq<Callback>, node: u64) -> Option<int> {
    find_by_node_from(s, node, 0)
}

/// The registry of live handler subscriptions, keyed by message type.
/// The caller mutates it only while holding the exclusion lock.
#[derive(Debug)]
pub struct CallbackRegistry {
    callbacks: Vec<Callback>,
}

impl View for CallbackRegistry {
    type V = Seq<Callback>;

    closed spec fn view(&self) -> Seq<Callback> {
        self.callbacks@
    }
}

impl CallbackRegistry {
    /// An empty registry.
    pub fn new() -> (r: CallbackRegistry)
        ensures
            r@ == Seq::<Callback>::empty(),
    {
        CallbackRegistry { callbacks: Vec::new() }
    }

    /// Subscribes a handler for a message type.  The new entry goes to the
    /// end; nothing else moves.
    pub fn register(&mut self, msg_type: u16, node: u64, key: u64)
        ensures
            final(self)@ == old(self)@.push(Callback { msg_type, node, key }),
    {
        self.callbacks.push(Callback { msg_type, node, key });
    }

    /// Removes the subscription registered under a node and hands back its
    /// bus key.  An absent node — and the reserved null node — is a safe
    /// no-op reported as "not found", never a failure.
    pub fn unregister(&mut self, node: u64) -> (r: Option<u64>)
        ensures
            node == 0 ==> r is None && final(self)@ == old(self)@,
            node != 0 ==> match spec_find_by_node(old(self)@, node) {
                Some(i) => r == Some(old(self)@[i].key) && final(self)@ == old(self)@.remove(i),
                None => r is None && final(self)@ == old(self)@,
            },
    {
        if node == 0 {
            return None;
        }
        let n = self.callbacks.len();
        let mut i: usize = 0;
        while i < n
            invariant
                node != 0,
                i <= n,
                n == self.callbacks@.len(),
                self.callbacks@ == old(self)@,
                spec_find_by_node(old(self)@, node) == find_by_node_from(old(self)@, node, i as int),
            decreases n - i,
        {
            if self.callbacks[i].node == node {
                let key = self.callbacks[i].key;
                self.callbacks.remove(i);
                return Some(key);
            }
            i += 1;
        }
        None
    }

    /// The handler that a message of the given type dispatches to: the
    /// first entry registered for that type, or nothing, in which case the
    /// delivery thread drops the message.
    pub fn lookup(&self, msg_type: u16) -> (r: Option<Callback>)
        ensures
            match spec_find_by_type(self@, msg_type) {
                Some(i) => r == Some(self@[i]),
                None => r is None,
            },
    {
        let n = self.callbacks.len();
        let mut i: usize = 0;
        while i < n
            invariant
                i <= n,
                n == self@.len(),
                spec_find_by_type(self@, msg_type) == find_by_type_from(self@, msg_type, i as int),
            decreases n - i,
        {
            if self.callbacks[i].msg_type == msg_type {
                return Some(self.callbacks[i]);
            }
            i += 1;
        }
        None
    }

    /// How many subscriptions are live.
    pub fn len(&self) -> (r: usize)
        ensures
            r == self@.len(),
    {
        self.callbacks.len()
    }
}

/// Registering a fresh node and then unregistering it finds exactly the
/// new entry and restores the registry: a handler removed after its call
/// leaves nothing behind to disturb later requests.
pub proof fn lemma_register_unregister_round_trip(s: Seq<Callback>, cb: Callback)
    requires
        forall|i: int| 0 <= i < s.len() ==> s[i].node != cb.node,
    ensures
        spec_find_by_node(s.push(cb), cb.node) == Some(s.len() as int),
        s.push(cb).remove(s.len() as int) =~= s,
{
    lemma_find_by_node_push(s, cb, 0);
}

/// Helper induction for the round trip: scanning past entries with other
/// nodes reaches the pushed entry.
proof fn lemma_find_by_node_push(s: Seq<Callback>, cb: Callback, i: int)
    requires
        0 <= i <= s.len(),
        forall|j: int| 0 <= j < s.len() ==> s[j].node != cb.node,
    ensures
        find_by_node_from(s.push(cb), cb.node, i) == Some(s.len() as int),
    decreases s.len() - i,
{
    if i < s.len() {
        assert(s.push(cb)[i] == s[i]);
        lemma_find_by_node_push(s, cb, i + 1);
    } else {
        assert(s.push(cb)[i] == cb);
    }
}

/// What the delivery thread does with one arriving bus message: the
/// message type it reported, the sender it reported (zero when it carries
/// none), the handler entry the registry selects for that type, and the
/// flat payload to hand the handler — the frame with header and trailing
/// integrity fields stripped.
pub struct Dispatch {
    pub msg_type: u16,
    pub sender_id: u16,
    pub callback: Callback,
    pub payload: Vec<u8>,
}

/// The bus message type of the sbp crate, opaque to the library: values
/// of it only pass through to the trusted calls below.
#[verifier::external_type_specification]
#[verifier::external_body]
pub struct ExSbp(sbp::Sbp);

/// Relies on sbp::messages::Sbp::message_type: the numeric message type
/// of the bus message, absent for unknown message kinds.
#[verifier::external_body]
fn message_type_of(msg: &sbp::Sbp) -> (r: Option<u16>) {
    msg.message_type()
}

/// Relies on sbp::messages::Sbp::sender_id: the sender identifier the
/// message carries, if any.
#[verifier::external_body]
fn sender_id_of(msg: &sbp::Sbp) -> (r: Option<u16>) {
    msg.sender_id()
}

/// Relies on sbp::to_vec: encodes the message back into one byte vector,
/// for a well-formed message the full frame — header, payload, then
/// integrity fields — and nothing when the message cannot be encoded.
/// The caller checks the vector's length before slicing it.
#[verifier::external_body]
fn frame_message(msg: &sbp::Sbp) -> (r: Option<Vec<u8>>) {
    sbp::to_vec(msg).ok()
}

/// Decides the dispatch of one message from plain values: the type and
/// sender the message reported and its re-encoded frame.  The message is
/// dispatched — to the first handler registered for exactly the reported
/// type, with the payload being the frame with its header and trailing
/// integrity fields stripped — precisely when such a handler exists and
/// the frame is long enough to hold both; otherwise it is dropped and
/// the registry, a shared reference, is untouched.
pub fn decide_dispatch(
    registry: &CallbackRegistry,
    msg_type: u16,
    sender_id: u16,
    frame: Vec<u8>,
) -> (r: Option<Dispatch>)
    ensures
        match spec_find_by_type(registry@, msg_type) {
            None => r is None,
            Some(i) => if frame@.len() < HEADER_LEN + CRC_LEN {
                r is None
            } else {
                r matches Some(d) && d.msg_type == msg_type && d.sender_id == sender_id
                    && d.callback == registry@[i] && d.payload@ == frame@.subrange(
                    HEADER_LEN as int,
                    frame@.len() - CRC_LEN,
                )
            },
        },
{
    let callback = match registry.lookup(msg_type) {
        Some(cb) => cb,
        None => {
            return None;
        },
    };
    if frame.len() < HEADER_LEN + CRC_LEN {
        return None;
    }
    let end = frame.len() - CRC_LEN;
    let mut payload: Vec<u8> = Vec::new();
    let mut i: usize = HEADER_LEN;
    while i < end
        invariant
            HEADER_LEN <= i <= end,
            end == frame@.len() - CRC_LEN,
            end <= frame@.len(),
            payload@ == frame@.subrange(HEADER_LEN as int, i as int),
        decreases end - i,
    {
        payload.push(frame[i]);
        proof {
            assert(payload@ =~= frame@.subrange(HEADER_LEN as int, i + 1));
        }
        i += 1;
    }
    Some(Dispatch { msg_type, sender_id, callback, payload })
}

/// Dispatches one arriving bus message: extracts the message's reported
/// type and sender and its re-encoded frame through the trusted calls
/// above, then lets `decide_dispatch` — whose contract pins the whole
/// decision over those plain values — choose the handler and strip the
/// payload.  Nothing is dispatched, and the bus thread is never blocked,
/// when the message reports no type or cannot be encoded; what the
/// trusted calls return for a given message is theirs, so this
/// function's own promise is only that any dispatch it does produce is
/// one `decide_dispatch` allows.
pub fn dispatch_message(registry: &CallbackRegistry, msg: &sbp::Sbp) -> (r: Option<Dispatch>)
    ensures
        match r {
            Some(d) => {
                &&& spec_find_by_type(registry@, d.msg_type) is Some
                &&& registry@[spec_find_by_type(registry@, d.msg_type)->Some_0] == d.callback
            },
            None => true,
        },
{
    let msg_type = match message_type_of(msg) {
        Some(t) => t,
        None => {
            return None;
        },
    };
    if registry.lookup(msg_type).is_none() {
        return None;
    }
    let sender_id = match sender_id_of(msg) {
        Some(s) => s,
        None => 0,
    };
    let frame = match frame_message(msg) {
        Some(f) => f,
        None => {
            return None;
        },
    };
    decide_dispatch(registry, msg_type, sender_id, frame)
}

} // verus!
