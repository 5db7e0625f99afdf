use vstd::prelude::*;
use crate::packet::{unique_keys, Message, RequestBody};
use crate::storage::Storage;

verus! {

/// An initialised node: its own id, the ids of the cluster's nodes, and
/// what it has seen.
#[derive(Debug)]
pub struct Node {
    pub id: String,
    pub peers: Vec<String>,
    pub storage: Storage,
}

impl Node {
    pub open spec fn wf(&self) -> bool {
        self.storage.wf()
    }

    /// A node with no identity yet and an empty storage.
    pub fn empty() -> (r: Node)
        ensures
            r.wf(),
            r.id@ == Seq::<char>::empty(),
            r.peers@ == Seq::<String>::empty(),
            r.storage.messages@ == Seq::<u64>::empty(),
            r.storage.topology@ == Seq::<(String, Vec<String>)>::empty(),
    {
        Node { id: String::new(), peers: Vec::new(), storage: Storage::new() }
    }

    /// The node that an `init` request describes, with an empty storage.
    pub fn init(message: Message<RequestBody>) -> (r: Node)
        requires
            message.body is Init,
        ensures
            r.wf(),
            r.id == message.body->Init_node_id,
            r.peers == message.body->Init_node_ids,
            r.storage.messages@ == Seq::<u64>::empty(),
            r.storage.topology@ == Seq::<(String, Vec<String>)>::empty(),
    {
        match message.body {
            RequestBody::Init { node_id, node_ids, .. } => Node {
                id: node_id,
                peers: node_ids,
                storage: Storage::new(),
            },
            _ => Node::empty(),
        }
    }
}

/// The handlers of a ready node, one per request type. Each answers the
/// request of its own type with a reply addressed to the request's sender
/// that carries the request's correlation id, and answers any other body
/// with `None`.
pub trait Gossip {
    /// What the handlers keep true of the node.
    spec fn inv(&self) -> bool;

    fn on_topology(&mut self, message: Message<RequestBody>) -> (r: Option<Message<RequestBody>>)
        requires
            old(self).inv(),
            message.body matches RequestBody::Topology { topology, .. } ==> unique_keys(topology@),
        ensures
            final(self).inv(),
            r is Some <==> message.body is Topology,
            r matches Some(reply) ==> reply.dest == message.src
                && reply.body.reply_to() == Some(message.body.correlation_id()),
    ;

    fn on_read(&mut self, message: Message<RequestBody>) -> (r: Option<Message<RequestBody>>)
        requires
            old(self).inv(),
        ensures
            final(self).inv(),
            r is Some <==> message.body is Read,
            r matches Some(reply) ==> reply.dest == message.src
                && reply.body.reply_to() == Some(message.body.correlation_id()),
    ;

    fn on_broadcast(&mut self, message: Message<RequestBody>) -> (r: Option<Message<RequestBody>>)
        requires
            old(self).inv(),
        ensures
            final(self).inv(),
            r is Some <==> message.body is Broadcast,
            r matches Some(reply) ==> reply.dest == message.src
                && reply.body.reply_to() == Some(message.body.correlation_id()),
    ;

    fn on_error(&mut self, message: Message<RequestBody>) -> (r: Option<Message<RequestBody>>)
        requires
            old(self).inv(),
        ensures
            final(self).inv(),
            r is Some <==> message.body is Error,
            r matches Some(reply) ==> reply.dest == message.src
                && reply.body.reply_to() == Some(message.body.correlation_id()),
    ;
}

impl Gossip for Node {
    open spec fn inv(&self) -> bool {
        self.wf()
    }

    /// Replaces the topology and answers `topology_ok`.
    fn on_topology(&mut self, message: Message<RequestBody>) -> (r: Option<Message<RequestBody>>)
        ensures
            final(self).id == old(self).id,
            final(self).peers == old(self).peers,
            final(self).storage.messages == old(self).storage.messages,
            message.body matches RequestBody::Topology { msg_id, topology } ==> {
                &&& final(self).storage.topology == topology
                &&& r == Some(Message {
                    src: old(self).id,
                    dest: message.src,
                    body: RequestBody::TopologyOk { msg_id, in_reply_to: msg_id },
                })
            },
            !(message.body is Topology) ==> final(self).storage.topology == old(self).storage.topology,
    {
        match message.body {
            RequestBody::Topology { msg_id, topology } => {
                self.storage.init_topology(topology);
                Some(Message {
                    src: self.id.clone(),
                    dest: message.src,
                    body: RequestBody::TopologyOk { msg_id, in_reply_to: msg_id },
                })
            },
            _ => None,
        }
    }

    /// Answers `read_ok` with every value in the log; changes nothing.
    fn on_read(&mut self, message: Message<RequestBody>) -> (r: Option<Message<RequestBody>>)
        ensures
            *final(self) == *old(self),
            message.body matches RequestBody::Read { msg_id } ==> r matches Some(reply) && {
                &&& reply.src == old(self).id
                &&& reply.dest == message.src
                &&& reply.body matches RequestBody::ReadOk { msg_id: m, in_reply_to, messages }
                    && m == msg_id && in_reply_to == msg_id
                    && messages@ == old(self).storage.messages@
            },
    {
        match message.body {
            RequestBody::Read { msg_id } => Some(Message {
                src: self.id.clone(),
                dest: message.src,
                body: RequestBody::ReadOk {
                    msg_id,
                    in_reply_to: msg_id,
                    messages: self.storage.get_messages(),
                },
            }),
            _ => None,
        }
    }

    /// Records the value, once however often it comes, and answers
    /// `broadcast_ok` whether it was new or not.
    fn on_broadcast(&mut self, message: Message<RequestBody>) -> (r: Option<Message<RequestBody>>)
        ensures
            final(self).id == old(self).id,
            final(self).peers == old(self).peers,
            final(self).storage.topology == old(self).storage.topology,
            message.body matches RequestBody::Broadcast { msg_id, message: value } ==> {
                &&& final(self).storage.messages@ == crate::storage::log_with(
                    old(self).storage.messages@,
                    value,
                )
                &&& r == Some(Message {
                    src: old(self).id,
                    dest: message.src,
                    body: RequestBody::BroadcastOk { msg_id, in_reply_to: msg_id },
                })
            },
            !(message.body is Broadcast) ==> final(self).storage.messages == old(self).storage.messages,
    {
        match message.body {
            RequestBody::Broadcast { msg_id, message: value } => {
                self.storage.add_message(value);
                Some(Message {
                    src: self.id.clone(),
                    dest: message.src,
                    body: RequestBody::BroadcastOk { msg_id, in_reply_to: msg_id },
                })
            },
            _ => None,
        }
    }

    /// Sends the error back unchanged to the one who sent it; changes nothing.
    fn on_error(&mut self, message: Message<RequestBody>) -> (r: Option<Message<RequestBody>>)
        ensures
            *final(self) == *old(self),
            message.body matches RequestBody::Error { in_reply_to, code, text } ==> r == Some(
                Message {
                    src: old(self).id,
                    dest: message.src,
                    body: RequestBody::Error { in_reply_to, code, text },
                },
            ),
    {
        match message.body {
            RequestBody::Error { in_reply_to, code, text } => Some(Message {
                src: self.id.clone(),
                dest: message.src,
                body: RequestBody::Error { in_reply_to, code, text },
            }),
            _ => None,
        }
    }
}

} // verus!
