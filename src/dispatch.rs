use vstd::prelude::*;
use crate::codec::{decode, decode_spec, error_code_spec, error_text_spec};
use crate::node::{Gossip, Node};
use crate::packet::{Body, Message, RequestBody};
use crate::storage::log_with;

verus! {

/// A request that the node's state forbids; the node cannot go on.
#[derive(Debug, Clone, Copy, PartialEq, Eq)]
pub enum ProtocolViolation {
    /// A request other than `init` came before the node was initialised.
    NotInitialized,
    /// A second `init` came.
    AlreadyInitialized,
}

/// The outcome of one request: a reply to send, nothing to send, or a
/// violation that ends the node.
pub type Outcome = Result<Option<Message<RequestBody>>, ProtocolViolation>;

/// The dispatcher: uninitialised until its first `init`, ready after it.
#[derive(Debug)]
pub struct BroadcastNode {
    pub initialized: bool,
    pub node: Node,
}

/// The effect of dispatching `req` in state `pre`: the state `post` and the
/// result `r` are those the protocol prescribes.
pub open spec fn dispatched(
    pre: BroadcastNode,
    req: Message<RequestBody>,
    post: BroadcastNode,
    r: Result<Message<RequestBody>, ProtocolViolation>,
) -> bool {
    if !pre.initialized {
        match req.body {
            RequestBody::Init { msg_id, node_id, node_ids } => {
                &&& post.initialized
                &&& post.node.id == node_id
                &&& post.node.peers == node_ids
                &&& post.node.storage.messages@ == Seq::<u64>::empty()
                &&& post.node.storage.topology@ == Seq::<(String, Vec<String>)>::empty()
                &&& r == Ok::<Message<RequestBody>, ProtocolViolation>(
                    Message { src: req.dest, dest: req.src, body: RequestBody::InitOk { in_reply_to: msg_id } },
                )
            },
            _ => post == pre && r == Err::<Message<RequestBody>, ProtocolViolation>(
                ProtocolViolation::NotInitialized,
            ),
        }
    } else {
        match req.body {
            RequestBody::Init { .. } => post == pre && r == Err::<
                Message<RequestBody>,
                ProtocolViolation,
            >(ProtocolViolation::AlreadyInitialized),
            RequestBody::Topology { msg_id, topology } => {
                &&& post.initialized
                &&& post.node.id == pre.node.id
                &&& post.node.peers == pre.node.peers
                &&& post.node.storage.messages == pre.node.storage.messages
                &&& post.node.storage.topology == topology
                &&& r == Ok::<Message<RequestBody>, ProtocolViolation>(
                    Message {
                        src: pre.node.id,
                        dest: req.src,
                        body: RequestBody::TopologyOk { msg_id, in_reply_to: msg_id },
                    },
                )
            },
            RequestBody::Read { msg_id } => {
                &&& post == pre
                &&& match r {
                    Ok(reply) => reply.src == pre.node.id && reply.dest == req.src && match reply.body {
                        RequestBody::ReadOk { msg_id: m, in_reply_to, messages } => m == msg_id
                            && in_reply_to == msg_id && messages@ == pre.node.storage.messages@,
                        _ => false,
                    },
                    Err(_) => false,
                }
            },
            RequestBody::Broadcast { msg_id, message } => {
                &&& post.initialized
                &&& post.node.id == pre.node.id
                &&& post.node.peers == pre.node.peers
                &&& post.node.storage.topology == pre.node.storage.topology
                &&& post.node.storage.messages@ == log_with(pre.node.storage.messages@, message)
                &&& r == Ok::<Message<RequestBody>, ProtocolViolation>(
                    Message {
                        src: pre.node.id,
                        dest: req.src,
                        body: RequestBody::BroadcastOk { msg_id, in_reply_to: msg_id },
                    },
                )
            },
            RequestBody::Error { .. } => post == pre && r == Ok::<
                Message<RequestBody>,
                ProtocolViolation,
            >(Message { src: pre.node.id, dest: req.src, body: req.body }),
            _ => false,
        }
    }
}

/// The `in_reply_to` that the answer to a wire message carries, if it gets
/// one: the correlation id of the request it decodes to, else its `msg_id`.
pub open spec fn expected_reply_to(raw: Message<Body>) -> Option<u64> {
    match decode_spec(raw.body) {
        Ok(b) => Some(b.correlation_id()),
        Err(_) => raw.body.msg_id,
    }
}

/// The outcome `out` answers the wire message `raw`: a reply goes back to its
/// sender with the expected `in_reply_to`, nothing is sent only when no reply
/// can be correlated, and only a decoded request can be a violation.
pub open spec fn correlates(raw: Message<Body>, out: Outcome) -> bool {
    match out {
        Ok(Some(reply)) => reply.dest == raw.src && reply.body.reply_to() == expected_reply_to(raw),
        Ok(None) => expected_reply_to(raw) is None,
        Err(_) => decode_spec(raw.body) is Ok,
    }
}

/// The effect of handling the wire message `raw` in state `pre`: a message
/// that decodes is dispatched; one that does not changes nothing and is
/// answered with an error reply when it carries a `msg_id`, else not at all.
pub open spec fn handled(pre: BroadcastNode, raw: Message<Body>, post: BroadcastNode, out: Outcome) -> bool {
    &&& correlates(raw, out)
    &&& match decode_spec(raw.body) {
        Ok(b) => {
            let req = Message { src: raw.src, dest: raw.dest, body: b };
            match out {
                Ok(Some(reply)) => dispatched(pre, req, post, Ok(reply)),
                Ok(None) => false,
                Err(v) => dispatched(pre, req, post, Err(v)),
            }
        },
        Err(e) => {
            &&& post == pre
            &&& match raw.body.msg_id {
                Some(m) => match out {
                    Ok(Some(reply)) => reply.src == raw.dest && reply.dest == raw.src
                        && match reply.body {
                        RequestBody::Error { in_reply_to, code, text } => in_reply_to == m
                            && code == error_code_spec(e) && text@ == error_text_spec(e),
                        _ => false,
                    },
                    _ => false,
                },
                None => out == Ok::<Option<Message<RequestBody>>, ProtocolViolation>(None),
            }
        },
    }
}

impl BroadcastNode {
    pub open spec fn wf(&self) -> bool {
        self.node.wf()
    }

    /// An uninitialised node.
    pub fn new() -> (r: BroadcastNode)
        ensures
            r.wf(),
            !r.initialized,
            r.node.storage.messages@ == Seq::<u64>::empty(),
    {
        BroadcastNode { initialized: false, node: Node::empty() }
    }

    /// Dispatches one request: an uninitialised node takes only `init`; a
    /// ready node refuses a second `init` and answers every other request.
    pub fn step(&mut self, request: Message<RequestBody>) -> (r: Result<
        Message<RequestBody>,
        ProtocolViolation,
    >)
        requires
            old(self).wf(),
            request.body.is_request(),
        ensures
            final(self).wf(),
            dispatched(*old(self), request, *final(self), r),
    {
        if !self.initialized {
            match &request.body {
                RequestBody::Init { msg_id, .. } => {
                    let in_reply_to = *msg_id;
                    let src = request.dest.clone();
                    let dest = request.src.clone();
                    self.node = Node::init(request);
                    self.initialized = true;
                    Ok(Message { src, dest, body: RequestBody::InitOk { in_reply_to } })
                },
                _ => Err(ProtocolViolation::NotInitialized),
            }
        } else {
            let reply = match &request.body {
                RequestBody::Init { .. } => {
                    return Err(ProtocolViolation::AlreadyInitialized);
                },
                RequestBody::Topology { .. } => self.node.on_topology(request),
                RequestBody::Read { .. } => self.node.on_read(request),
                RequestBody::Broadcast { .. } => self.node.on_broadcast(request),
                _ => self.node.on_error(request),
            };
            // Each handler answers a request of its own type, so `None` cannot come.
            match reply {
                Some(reply) => Ok(reply),
                None => Err(ProtocolViolation::NotInitialized),
            }
        }
    }

    /// Handles one wire message: decodes it and dispatches the request, or,
    /// where it does not decode, answers with an error reply when it carries
    /// a `msg_id` and with nothing when it does not. The node's state changes
    /// only through a dispatched request.
    pub fn handle(&mut self, raw: Message<Body>) -> (r: Outcome)
        requires
            old(self).wf(),
        ensures
            final(self).wf(),
            correlates(raw, r),
            handled(*old(self), raw, *final(self), r),
    {
        let msg_id = raw.body.msg_id;
        let src = raw.src.clone();
        let dest = raw.dest.clone();
        match decode(raw) {
            Ok(request) => match self.step(request) {
                Ok(reply) => Ok(Some(reply)),
                Err(v) => Err(v),
            },
            Err(e) => match msg_id {
                Some(m) => Ok(
                    Some(
                        Message {
                            src: dest,
                            dest: src,
                            body: RequestBody::Error { in_reply_to: m, code: e.code(), text: e.text() },
                        },
                    ),
                ),
                None => Ok(None),
            },
        }
    }
}

/// Handles the wire messages in the order given, one outcome for each, and
/// stops after the first violation: every outcome but the last is `Ok`, and
/// fewer outcomes than messages means that the last is a violation.
pub fn handle_messages(node: &mut BroadcastNode, inputs: Vec<Message<Body>>) -> (r: Vec<Outcome>)
    requires
        old(node).wf(),
    ensures
        final(node).wf(),
        r.len() <= inputs.len(),
        forall|i: int| 0 <= i < r.len() ==> correlates(inputs@[i], #[trigger] r@[i]),
        forall|i: int| 0 <= i < r.len() - 1 ==> (#[trigger] r@[i]) is Ok,
        r.len() < inputs.len() ==> r.len() > 0 && r@.last() is Err,
        (forall|i: int| 0 <= i < r.len() ==> (#[trigger] r@[i]) is Ok) ==> r.len() == inputs.len(),
        exists|states: Seq<BroadcastNode>|
            {
                &&& states.len() == r.len() + 1
                &&& states[0] == *old(node)
                &&& states.last() == *final(node)
                &&& forall|i: int|
                    0 <= i < r.len() ==> handled(states[i], inputs@[i], states[i + 1], #[trigger] r@[i])
            },
{
    let ghost all = inputs@;
    let mut inputs = inputs;
    let mut out: Vec<Outcome> = Vec::new();
    let mut stopped = false;
    let ghost mut states: Seq<BroadcastNode> = seq![*node];
    while inputs.len() > 0 && !stopped
        invariant
            node.wf(),
            states.len() == out.len() + 1,
            states[0] == *old(node),
            states.last() == *node,
            forall|i: int| 0 <= i < out.len() ==> handled(states[i], all[i], states[i + 1], #[trigger] out@[i]),
            out.len() + inputs.len() == all.len(),
            inputs@ == all.subrange(out.len() as int, all.len() as int),
            forall|i: int| 0 <= i < out.len() ==> correlates(all[i], #[trigger] out@[i]),
            forall|i: int| 0 <= i < out.len() - 1 ==> (#[trigger] out@[i]) is Ok,
            !stopped ==> forall|i: int| 0 <= i < out.len() ==> (#[trigger] out@[i]) is Ok,
            stopped ==> out.len() > 0 && out@.last() is Err,
        decreases inputs.len(),
    {
        let raw = inputs.remove(0);
        assert(raw == all[out.len() as int]);
        let res = node.handle(raw);
        stopped = res.is_err();
        out.push(res);
        proof {
            states = states.push(*node);
        }
    }
    assert(states.len() == out.len() + 1 && states[0] == *old(node) && states.last() == *node);
    out
}

} // verus!
