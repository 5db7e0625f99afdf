use vstd::prelude::*;

verus! {

/// A message between two nodes: its sender, its recipient and its body.
#[derive(Debug, Clone, PartialEq, Eq)]
pub struct Message<B> {
    pub src: String,
    pub dest: String,
    pub body: B,
}

/// No node is named twice in the topology `t`.
pub open spec fn unique_keys(t: Seq<(String, Vec<String>)>) -> bool {
    forall|i: int, j: int| 0 <= i < t.len() && 0 <= j < t.len() && i != j ==> t[i].0@ != t[j].0@
}

/// Whether each node is named once in `t`.
pub fn has_unique_keys(t: &Vec<(String, Vec<String>)>) -> (r: bool)
    ensures
        r == unique_keys(t@),
{
    let mut i: usize = 0;
    while i < t.len()
        invariant
            0 <= i <= t@.len(),
            forall|a: int, b: int| 0 <= a < i && 0 <= b < t@.len() && a != b ==> t@[a].0@ != t@[b].0@,
        decreases t@.len() - i,
    {
        let mut j: usize = 0;
        while j < t.len()
            invariant
                0 <= i < t@.len(),
                0 <= j <= t@.len(),
                forall|a: int, b: int| 0 <= a < i && 0 <= b < t@.len() && a != b ==> t@[a].0@ != t@[b].0@,
                forall|b: int| 0 <= b < j && b != i ==> t@[i as int].0@ != t@[b].0@,
            decreases t@.len() - j,
        {
            if j != i && t[i].0 == t[j].0 {
                return false;
            }
            j = j + 1;
        }
        i = i + 1;
    }
    true
}

/// The typed body of a request or of a reply.
#[derive(Debug, Clone, PartialEq, Eq)]
pub enum RequestBody {
    Init { msg_id: u64, node_id: String, node_ids: Vec<String> },
    InitOk { in_reply_to: u64 },
    Topology { msg_id: u64, topology: Vec<(String, Vec<String>)> },
    TopologyOk { msg_id: u64, in_reply_to: u64 },
    Read { msg_id: u64 },
    ReadOk { msg_id: u64, in_reply_to: u64, messages: Vec<u64> },
    Broadcast { msg_id: u64, message: u64 },
    BroadcastOk { msg_id: u64, in_reply_to: u64 },
    Error { in_reply_to: u64, code: u64, text: String },
}

impl RequestBody {
    /// The bodies a node accepts as requests; a topology names each node once.
    pub open spec fn is_request(self) -> bool {
        ||| self is Init
        ||| self matches RequestBody::Topology { topology, .. } && unique_keys(topology@)
        ||| self is Read
        ||| self is Broadcast
        ||| self is Error
    }

    /// The id that the answer to this request carries in `in_reply_to`:
    /// the request's `msg_id`, or, for an error, the id it already answers.
    pub open spec fn correlation_id(self) -> u64 {
        match self {
            RequestBody::Init { msg_id, .. } => msg_id,
            RequestBody::Topology { msg_id, .. } => msg_id,
            RequestBody::Read { msg_id } => msg_id,
            RequestBody::Broadcast { msg_id, .. } => msg_id,
            RequestBody::Error { in_reply_to, .. } => in_reply_to,
            RequestBody::InitOk { in_reply_to } => in_reply_to,
            RequestBody::TopologyOk { in_reply_to, .. } => in_reply_to,
            RequestBody::ReadOk { in_reply_to, .. } => in_reply_to,
            RequestBody::BroadcastOk { in_reply_to, .. } => in_reply_to,
        }
    }

    /// The `in_reply_to` of a reply body; `None` for a body that answers nothing.
    pub open spec fn reply_to(self) -> Option<u64> {
        match self {
            RequestBody::InitOk { in_reply_to } => Some(in_reply_to),
            RequestBody::TopologyOk { in_reply_to, .. } => Some(in_reply_to),
            RequestBody::ReadOk { in_reply_to, .. } => Some(in_reply_to),
            RequestBody::BroadcastOk { in_reply_to, .. } => Some(in_reply_to),
            RequestBody::Error { in_reply_to, .. } => Some(in_reply_to),
            _ => None,
        }
    }
}

/// A body as it stands on the wire: a `type` tag and the fields of every
/// variant, each of them possibly absent.
#[derive(Debug, Clone, PartialEq, Eq)]
pub struct Body {
    pub kind: Option<String>,
    pub msg_id: Option<u64>,
    pub in_reply_to: Option<u64>,
    pub node_id: Option<String>,
    pub node_ids: Option<Vec<String>>,
    pub topology: Option<Vec<(String, Vec<String>)>>,
    pub message: Option<u64>,
    pub messages: Option<Vec<u64>>,
    pub code: Option<u64>,
    pub text: Option<String>,
}

impl Body {
    /// A body with the given tag and no field.
    pub fn tagged(kind: String) -> (r: Body)
        ensures
            r.kind == Some(kind),
            r.msg_id is None,
            r.in_reply_to is None,
            r.node_id is None,
            r.node_ids is None,
            r.topology is None,
            r.message is None,
            r.messages is None,
            r.code is None,
            r.text is None,
    {
        Body {
            kind: Some(kind),
            msg_id: None,
            in_reply_to: None,
            node_id: None,
            node_ids: None,
            topology: None,
            message: None,
            messages: None,
            code: None,
            text: None,
        }
    }
}

} // verus!
