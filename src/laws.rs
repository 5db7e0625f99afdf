use vstd::prelude::*;
use crate::codec::{decode_spec, encodes};
use crate::dispatch::{dispatched, BroadcastNode, ProtocolViolation};
use crate::packet::{Message, RequestBody};
use crate::storage::{log_after, occurrences};

verus! {

proof fn lemma_occurrences_push(s: Seq<u64>, x: u64, v: u64)
    ensures
        occurrences(s.push(x), v) == occurrences(s, v) + if x == v { 1nat } else { 0nat },
{
    assert(s.push(x).drop_last() =~= s);
}

proof fn lemma_log_after_contains(log: Seq<u64>, values: Seq<u64>, v: u64)
    ensures
        log_after(log, values).contains(v) <==> (log.contains(v) || values.contains(v)),
    decreases values.len(),
{
    if values.len() > 0 {
        let prefix = values.drop_last();
        lemma_log_after_contains(log, prefix, v);
        let l = log_after(log, prefix);
        if !l.contains(values.last()) {
            if l.push(values.last()).contains(v) && v != values.last() {
                let k = choose|k: int| 0 <= k < l.push(values.last()).len() && l.push(values.last())[k] == v;
                assert(l[k] == v);
            }
            if l.contains(v) {
                let k = choose|k: int| 0 <= k < l.len() && l[k] == v;
                assert(l.push(values.last())[k] == v);
            }
            assert(l.push(values.last())[l.len() as int] == values.last());
        }
        if prefix.contains(v) {
            let k = choose|k: int| 0 <= k < prefix.len() && prefix[k] == v;
            assert(values[k] == v);
        }
        if values.contains(v) && v != values.last() {
            let k = choose|k: int| 0 <= k < values.len() && values[k] == v;
            assert(k < values.len() - 1);
            assert(prefix[k] == v);
        }
        assert(values[values.len() - 1] == values.last());
    }
}

proof fn lemma_log_after_count(values: Seq<u64>, v: u64)
    ensures
        occurrences(log_after(Seq::empty(), values), v) == if values.contains(v) { 1nat } else { 0nat },
    decreases values.len(),
{
    if values.len() == 0 {
    } else {
        let prefix = values.drop_last();
        lemma_log_after_count(prefix, v);
        lemma_log_after_contains(Seq::empty(), prefix, values.last());
        lemma_log_after_contains(Seq::empty(), prefix, v);
        let l = log_after(Seq::empty(), prefix);
        if !l.contains(values.last()) {
            lemma_occurrences_push(l, values.last(), v);
        }
        if prefix.contains(v) {
            let k = choose|k: int| 0 <= k < prefix.len() && prefix[k] == v;
            assert(values[k] == v);
        }
        if values.contains(v) && v != values.last() {
            let k = choose|k: int| 0 <= k < values.len() && values[k] == v;
            assert(k < values.len() - 1);
            assert(prefix[k] == v);
        }
        assert(values[values.len() - 1] == values.last());
    }
}

/// Broadcasting values into an empty log, in any order and with any
/// repetition, leaves each value that was broadcast in the log exactly once,
/// and no other value.
pub proof fn broadcast_is_idempotent(values: Seq<u64>, v: u64)
    ensures
        values.contains(v) ==> occurrences(log_after(Seq::empty(), values), v) == 1,
        !values.contains(v) ==> !log_after(Seq::empty(), values).contains(v),
{
    lemma_log_after_count(values, v);
    lemma_log_after_contains(Seq::empty(), values, v);
}

/// After an `init` has succeeded, a second `init` is refused as a violation
/// and leaves the node's identity and peers as the first one set them.
pub proof fn init_once(
    s0: BroadcastNode,
    first: Message<RequestBody>,
    s1: BroadcastNode,
    reply: Message<RequestBody>,
    second: Message<RequestBody>,
    s2: BroadcastNode,
    r: Result<Message<RequestBody>, ProtocolViolation>,
)
    requires
        first.body is Init,
        second.body is Init,
        dispatched(s0, first, s1, Ok(reply)),
        dispatched(s1, second, s2, r),
    ensures
        r == Err::<Message<RequestBody>, ProtocolViolation>(ProtocolViolation::AlreadyInitialized),
        s2 == s1,
        s2.node.id == first.body->Init_node_id,
        s2.node.peers == first.body->Init_node_ids,
{
}

/// Two `topology` requests, the first with map `a` and the second with map
/// `b`, leave the topology equal to `b`: the second replaces the first.
pub proof fn topology_is_replaced(
    s0: BroadcastNode,
    a: Message<RequestBody>,
    ra: Result<Message<RequestBody>, ProtocolViolation>,
    s1: BroadcastNode,
    b: Message<RequestBody>,
    rb: Result<Message<RequestBody>, ProtocolViolation>,
    s2: BroadcastNode,
)
    requires
        s0.initialized,
        a.body is Topology,
        b.body is Topology,
        dispatched(s0, a, s1, ra),
        dispatched(s1, b, s2, rb),
    ensures
        s2.node.storage.topology == b.body->Topology_topology,
        s2.node.storage.messages == s0.node.storage.messages,
{
}

/// A request read back from its own wire form is the request itself.
pub proof fn decode_inverts_encode(w: crate::packet::Body, b: RequestBody)
    requires
        b.is_request(),
        encodes(w, b),
    ensures
        decode_spec(w) == Ok::<RequestBody, crate::codec::DecodeError>(b),
{
    reveal_strlit("init");
    reveal_strlit("topology");
    reveal_strlit("read");
    reveal_strlit("broadcast");
    reveal_strlit("error");
    assert("init"@ != "topology"@ && "init"@ != "read"@ && "init"@ != "broadcast"@ && "init"@ != "error"@) by {
        assert("init"@[0] != "topology"@[0]);
        assert("init"@[0] != "read"@[0]);
        assert("init"@[0] != "broadcast"@[0]);
        assert("init"@[0] != "error"@[0]);
    }
    assert("topology"@ != "read"@ && "topology"@ != "broadcast"@ && "topology"@ != "error"@) by {
        assert("topology"@[0] != "read"@[0]);
        assert("topology"@[0] != "broadcast"@[0]);
        assert("topology"@[0] != "error"@[0]);
    }
    assert("read"@ != "broadcast"@ && "read"@ != "error"@) by {
        assert("read"@[0] != "broadcast"@[0]);
        assert("read"@[0] != "error"@[0]);
    }
    assert("broadcast"@ != "error"@) by {
        assert("broadcast"@[0] != "error"@[0]);
    }
}

} // verus!
