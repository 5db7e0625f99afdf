use vstd::prelude::*;
use crate::packet::{has_unique_keys, unique_keys, Body, Message, RequestBody};

verus! {

/// Error code of a request whose type this node does not serve.
pub const NOT_SUPPORTED: u64 = 10;

/// Error code of a request that lacks its type or a field its type needs.
pub const MALFORMED_REQUEST: u64 = 12;

/// Why a wire body is not a request.
#[derive(Debug, Clone, Copy, PartialEq, Eq)]
pub enum DecodeError {
    /// The body has no `type`.
    MissingType,
    /// The `type` names no request.
    UnsupportedType,
    /// A field that the `type` needs is absent.
    MissingField,
    /// A topology names a node twice.
    DuplicateNode,
}

/// The wire body `w` carries the tag `tag`.
pub open spec fn has_tag(w: Body, tag: Seq<char>) -> bool {
    w.kind matches Some(k) && k@ == tag
}

/// The request that a wire body stands for, or why it stands for none.
/// Fields that the tag does not use are ignored.
pub open spec fn decode_spec(w: Body) -> Result<RequestBody, DecodeError> {
    if w.kind is None {
        Err(DecodeError::MissingType)
    } else if has_tag(w, "init"@) {
        if w.msg_id is Some && w.node_id is Some && w.node_ids is Some {
            Ok(RequestBody::Init { msg_id: w.msg_id->0, node_id: w.node_id->0, node_ids: w.node_ids->0 })
        } else {
            Err(DecodeError::MissingField)
        }
    } else if has_tag(w, "topology"@) {
        if w.msg_id is Some && w.topology is Some {
            if unique_keys(w.topology->0@) {
                Ok(RequestBody::Topology { msg_id: w.msg_id->0, topology: w.topology->0 })
            } else {
                Err(DecodeError::DuplicateNode)
            }
        } else {
            Err(DecodeError::MissingField)
        }
    } else if has_tag(w, "read"@) {
        if w.msg_id is Some {
            Ok(RequestBody::Read { msg_id: w.msg_id->0 })
        } else {
            Err(DecodeError::MissingField)
        }
    } else if has_tag(w, "broadcast"@) {
        if w.msg_id is Some && w.message is Some {
            Ok(RequestBody::Broadcast { msg_id: w.msg_id->0, message: w.message->0 })
        } else {
            Err(DecodeError::MissingField)
        }
    } else if has_tag(w, "error"@) {
        if w.in_reply_to is Some && w.code is Some && w.text is Some {
            Ok(RequestBody::Error { in_reply_to: w.in_reply_to->0, code: w.code->0, text: w.text->0 })
        } else {
            Err(DecodeError::MissingField)
        }
    } else {
        Err(DecodeError::UnsupportedType)
    }
}

/// `w` is the wire form of `b`: its tag, and exactly the fields of its variant.
pub open spec fn encodes(w: Body, b: RequestBody) -> bool {
    let none = Body {
        kind: w.kind,
        msg_id: None,
        in_reply_to: None,
        node_id: None,
        node_ids: None,
        topology: None,
        message: None,
        messages: None,
        code: None,
        text: None,
    };
    match b {
        RequestBody::Init { msg_id, node_id, node_ids } => has_tag(w, "init"@) && w == (Body {
            msg_id: Some(msg_id),
            node_id: Some(node_id),
            node_ids: Some(node_ids),
            ..none
        }),
        RequestBody::InitOk { in_reply_to } => has_tag(w, "init_ok"@) && w == (Body {
            in_reply_to: Some(in_reply_to),
            ..none
        }),
        RequestBody::Topology { msg_id, topology } => has_tag(w, "topology"@) && w == (Body {
            msg_id: Some(msg_id),
            topology: Some(topology),
            ..none
        }),
        RequestBody::TopologyOk { msg_id, in_reply_to } => has_tag(w, "topology_ok"@) && w == (
        Body { msg_id: Some(msg_id), in_reply_to: Some(in_reply_to), ..none }),
        RequestBody::Read { msg_id } => has_tag(w, "read"@) && w == (Body {
            msg_id: Some(msg_id),
            ..none
        }),
        RequestBody::ReadOk { msg_id, in_reply_to, messages } => has_tag(w, "read_ok"@) && w == (
        Body {
            msg_id: Some(msg_id),
            in_reply_to: Some(in_reply_to),
            messages: Some(messages),
            ..none
        }),
        RequestBody::Broadcast { msg_id, message } => has_tag(w, "broadcast"@) && w == (Body {
            msg_id: Some(msg_id),
            message: Some(message),
            ..none
        }),
        RequestBody::BroadcastOk { msg_id, in_reply_to } => has_tag(w, "broadcast_ok"@) && w == (
        Body { msg_id: Some(msg_id), in_reply_to: Some(in_reply_to), ..none }),
        RequestBody::Error { in_reply_to, code, text } => has_tag(w, "error"@) && w == (Body {
            in_reply_to: Some(in_reply_to),
            code: Some(code),
            text: Some(text),
            ..none
        }),
    }
}

/// Whether `kind` is the tag `tag`.
fn tag_is(kind: &String, tag: &str) -> (r: bool)
    ensures
        r == (kind@ == tag@),
{
    let t = tag.to_owned();
    *kind == t
}

/// Decodes a wire body into a request.
pub fn decode_body(w: Body) -> (r: Result<RequestBody, DecodeError>)
    ensures
        r == decode_spec(w),
        r matches Ok(b) ==> b.is_request(),
{
    let Body { kind, msg_id, in_reply_to, node_id, node_ids, topology, message, code, text, .. } = w;
    let k = match kind {
        Some(k) => k,
        None => return Err(DecodeError::MissingType),
    };
    if tag_is(&k, "init") {
        match (msg_id, node_id, node_ids) {
            (Some(msg_id), Some(node_id), Some(node_ids)) => Ok(
                RequestBody::Init { msg_id, node_id, node_ids },
            ),
            _ => Err(DecodeError::MissingField),
        }
    } else if tag_is(&k, "topology") {
        match (msg_id, topology) {
            (Some(msg_id), Some(topology)) => if has_unique_keys(&topology) {
                Ok(RequestBody::Topology { msg_id, topology })
            } else {
                Err(DecodeError::DuplicateNode)
            },
            _ => Err(DecodeError::MissingField),
        }
    } else if tag_is(&k, "read") {
        match msg_id {
            Some(msg_id) => Ok(RequestBody::Read { msg_id }),
            None => Err(DecodeError::MissingField),
        }
    } else if tag_is(&k, "broadcast") {
        match (msg_id, message) {
            (Some(msg_id), Some(message)) => Ok(RequestBody::Broadcast { msg_id, message }),
            _ => Err(DecodeError::MissingField),
        }
    } else if tag_is(&k, "error") {
        match (in_reply_to, code, text) {
            (Some(in_reply_to), Some(code), Some(text)) => Ok(
                RequestBody::Error { in_reply_to, code, text },
            ),
            _ => Err(DecodeError::MissingField),
        }
    } else {
        Err(DecodeError::UnsupportedType)
    }
}

/// Encodes a typed body into its wire form.
pub fn encode_body(b: RequestBody) -> (r: Body)
    ensures
        encodes(r, b),
{
    match b {
        RequestBody::Init { msg_id, node_id, node_ids } => {
            let mut w = Body::tagged("init".to_owned());
            w.msg_id = Some(msg_id);
            w.node_id = Some(node_id);
            w.node_ids = Some(node_ids);
            w
        },
        RequestBody::InitOk { in_reply_to } => {
            let mut w = Body::tagged("init_ok".to_owned());
            w.in_reply_to = Some(in_reply_to);
            w
        },
        RequestBody::Topology { msg_id, topology } => {
            let mut w = Body::tagged("topology".to_owned());
            w.msg_id = Some(msg_id);
            w.topology = Some(topology);
            w
        },
        RequestBody::TopologyOk { msg_id, in_reply_to } => {
            let mut w = Body::tagged("topology_ok".to_owned());
            w.msg_id = Some(msg_id);
            w.in_reply_to = Some(in_reply_to);
            w
        },
        RequestBody::Read { msg_id } => {
            let mut w = Body::tagged("read".to_owned());
            w.msg_id = Some(msg_id);
            w
        },
        RequestBody::ReadOk { msg_id, in_reply_to, messages } => {
            let mut w = Body::tagged("read_ok".to_owned());
            w.msg_id = Some(msg_id);
            w.in_reply_to = Some(in_reply_to);
            w.messages = Some(messages);
            w
        },
        RequestBody::Broadcast { msg_id, message } => {
            let mut w = Body::tagged("broadcast".to_owned());
            w.msg_id = Some(msg_id);
            w.message = Some(message);
            w
        },
        RequestBody::BroadcastOk { msg_id, in_reply_to } => {
            let mut w = Body::tagged("broadcast_ok".to_owned());
            w.msg_id = Some(msg_id);
            w.in_reply_to = Some(in_reply_to);
            w
        },
        RequestBody::Error { in_reply_to, code, text } => {
            let mut w = Body::tagged("error".to_owned());
            w.in_reply_to = Some(in_reply_to);
            w.code = Some(code);
            w.text = Some(text);
            w
        },
    }
}

/// Encodes a typed message into its wire form; sender and recipient are kept.
pub fn encode(m: Message<RequestBody>) -> (r: Message<Body>)
    ensures
        r.src == m.src,
        r.dest == m.dest,
        encodes(r.body, m.body),
{
    Message { src: m.src, dest: m.dest, body: encode_body(m.body) }
}

/// Decodes a wire message into a typed one; sender and recipient are kept.
pub fn decode(m: Message<Body>) -> (r: Result<Message<RequestBody>, DecodeError>)
    ensures
        match decode_spec(m.body) {
            Ok(b) => r == Ok::<Message<RequestBody>, DecodeError>(
                Message { src: m.src, dest: m.dest, body: b },
            ),
            Err(e) => r == Err::<Message<RequestBody>, DecodeError>(e),
        },
{
    match decode_body(m.body) {
        Ok(body) => Ok(Message { src: m.src, dest: m.dest, body }),
        Err(e) => Err(e),
    }
}

/// The error code that reports a decode failure.
pub open spec fn error_code_spec(e: DecodeError) -> u64 {
    match e {
        DecodeError::UnsupportedType => NOT_SUPPORTED,
        _ => MALFORMED_REQUEST,
    }
}

/// The text that reports a decode failure.
pub open spec fn error_text_spec(e: DecodeError) -> Seq<char> {
    match e {
        DecodeError::MissingType => "missing message type"@,
        DecodeError::UnsupportedType => "unsupported message type"@,
        DecodeError::MissingField => "missing field"@,
        DecodeError::DuplicateNode => "node named twice in topology"@,
    }
}

impl DecodeError {
    /// The error code that reports this failure.
    pub fn code(&self) -> (r: u64)
        ensures
            r == error_code_spec(*self),
    {
        match self {
            DecodeError::UnsupportedType => NOT_SUPPORTED,
            _ => MALFORMED_REQUEST,
        }
    }

    /// The text that reports this failure.
    pub fn text(&self) -> (r: String)
        ensures
            r@ == error_text_spec(*self),
    {
        match self {
            DecodeError::MissingType => "missing message type".to_owned(),
            DecodeError::UnsupportedType => "unsupported message type".to_owned(),
            DecodeError::MissingField => "missing field".to_owned(),
            DecodeError::DuplicateNode => "node named twice in topology".to_owned(),
        }
    }
}

} // verus!
