use broadcast_node::codec::{
    decode_body, encode, encode_body, DecodeError, MALFORMED_REQUEST, NOT_SUPPORTED,
};
use broadcast_node::dispatch::{handle_messages, BroadcastNode, Outcome, ProtocolViolation};
use broadcast_node::node::{Gossip, Node};
use broadcast_node::packet::{Body, Message, RequestBody};
use broadcast_node::storage::Storage;

fn wire(kind: &str) -> Body {
    Body::tagged(kind.to_string())
}

fn msg(body: Body) -> Message<Body> {
    Message { src: "c1".to_string(), dest: "n1".to_string(), body }
}

fn init(msg_id: u64, id: &str, ids: &[&str]) -> Message<Body> {
    let mut b = wire("init");
    b.msg_id = Some(msg_id);
    b.node_id = Some(id.to_string());
    b.node_ids = Some(ids.iter().map(|s| s.to_string()).collect());
    msg(b)
}

fn broadcast(msg_id: u64, value: u64) -> Message<Body> {
    let mut b = wire("broadcast");
    b.msg_id = Some(msg_id);
    b.message = Some(value);
    msg(b)
}

fn read(msg_id: u64) -> Message<Body> {
    let mut b = wire("read");
    b.msg_id = Some(msg_id);
    msg(b)
}

fn topology(msg_id: u64, entries: &[(&str, &[&str])]) -> Message<Body> {
    let mut b = wire("topology");
    b.msg_id = Some(msg_id);
    b.topology = Some(
        entries
            .iter()
            .map(|(k, v)| (k.to_string(), v.iter().map(|s| s.to_string()).collect()))
            .collect(),
    );
    msg(b)
}

fn reply(out: &Outcome) -> &Message<RequestBody> {
    match out {
        Ok(Some(r)) => r,
        other => panic!("expected a reply, got {:?}", other),
    }
}

fn ready_node() -> BroadcastNode {
    let mut node = BroadcastNode::new();
    let out = node.handle(init(1, "n1", &["n1", "n2"]));
    assert!(matches!(out, Ok(Some(_))));
    node
}

#[test]
fn end_to_end_scenario() {
    let mut node = BroadcastNode::new();
    let out = handle_messages(&mut node, vec![init(1, "n1", &["n1"]), broadcast(2, 37), read(3)]);
    assert_eq!(out.len(), 3);
    assert_eq!(reply(&out[0]).body, RequestBody::InitOk { in_reply_to: 1 });
    assert_eq!(reply(&out[0]).dest, "c1");
    assert_eq!(reply(&out[0]).src, "n1");
    assert_eq!(reply(&out[1]).body, RequestBody::BroadcastOk { msg_id: 2, in_reply_to: 2 });
    assert_eq!(
        reply(&out[2]).body,
        RequestBody::ReadOk { msg_id: 3, in_reply_to: 3, messages: vec![37] }
    );
}

#[test]
fn repeated_broadcast_is_read_once() {
    let mut node = ready_node();
    let out = handle_messages(
        &mut node,
        vec![broadcast(2, 5), broadcast(3, 7), broadcast(4, 5), broadcast(5, 5), read(6)],
    );
    assert_eq!(out.len(), 5);
    for (i, o) in out[..4].iter().enumerate() {
        let m = (i + 2) as u64;
        assert_eq!(reply(o).body, RequestBody::BroadcastOk { msg_id: m, in_reply_to: m });
    }
    match &reply(&out[4]).body {
        RequestBody::ReadOk { messages, .. } => {
            let mut sorted = messages.clone();
            sorted.sort();
            assert_eq!(sorted, vec![5, 7]);
        }
        other => panic!("expected read_ok, got {:?}", other),
    }
}

#[test]
fn second_init_is_a_violation() {
    let mut node = ready_node();
    let out = node.handle(init(9, "other", &["other"]));
    assert_eq!(out, Err(ProtocolViolation::AlreadyInitialized));
    assert!(node.initialized);
    assert_eq!(node.node.id, "n1");
    assert_eq!(node.node.peers, vec!["n1".to_string(), "n2".to_string()]);
}

#[test]
fn request_before_init_is_a_violation() {
    let mut node = BroadcastNode::new();
    let out = handle_messages(&mut node, vec![read(1), init(2, "n1", &["n1"])]);
    assert_eq!(out.len(), 1);
    assert_eq!(out[0], Err(ProtocolViolation::NotInitialized));
    assert!(!node.initialized);
}

#[test]
fn replies_follow_request_order() {
    let mut node = BroadcastNode::new();
    let inputs = vec![
        init(10, "n1", &["n1"]),
        topology(11, &[("n1", &[])]),
        broadcast(12, 1),
        read(13),
        broadcast(14, 2),
    ];
    let out = handle_messages(&mut node, inputs);
    let ids: Vec<u64> = out
        .iter()
        .map(|o| match &reply(o).body {
            RequestBody::InitOk { in_reply_to }
            | RequestBody::TopologyOk { in_reply_to, .. }
            | RequestBody::ReadOk { in_reply_to, .. }
            | RequestBody::BroadcastOk { in_reply_to, .. }
            | RequestBody::Error { in_reply_to, .. } => *in_reply_to,
            other => panic!("not a reply: {:?}", other),
        })
        .collect();
    assert_eq!(ids, vec![10, 11, 12, 13, 14]);
}

#[test]
fn topology_is_replaced_not_merged() {
    let mut node = ready_node();
    let a = node.handle(topology(2, &[("n1", &["n2"]), ("n2", &["n1"])]));
    assert_eq!(reply(&a).body, RequestBody::TopologyOk { msg_id: 2, in_reply_to: 2 });
    let b = node.handle(topology(3, &[("n3", &["n1"])]));
    assert_eq!(reply(&b).body, RequestBody::TopologyOk { msg_id: 3, in_reply_to: 3 });
    assert_eq!(
        node.node.storage.topology,
        vec![("n3".to_string(), vec!["n1".to_string()])]
    );
}

#[test]
fn unrecognized_type_gets_error_reply() {
    let mut node = ready_node();
    let mut b = wire("frobnicate");
    b.msg_id = Some(4);
    let out = handle_messages(&mut node, vec![msg(b), broadcast(5, 8), read(6)]);
    assert_eq!(out.len(), 3);
    let err = reply(&out[0]);
    assert_eq!(err.dest, "c1");
    assert_eq!(
        err.body,
        RequestBody::Error {
            in_reply_to: 4,
            code: NOT_SUPPORTED,
            text: "unsupported message type".to_string()
        }
    );
    assert_eq!(reply(&out[1]).body, RequestBody::BroadcastOk { msg_id: 5, in_reply_to: 5 });
    assert_eq!(
        reply(&out[2]).body,
        RequestBody::ReadOk { msg_id: 6, in_reply_to: 6, messages: vec![8] }
    );
}

#[test]
fn unrecognized_type_before_init_is_not_fatal() {
    let mut node = BroadcastNode::new();
    let mut b = wire("frobnicate");
    b.msg_id = Some(1);
    let out = node.handle(msg(b));
    assert_eq!(reply(&out).body.clone(), RequestBody::Error {
        in_reply_to: 1,
        code: NOT_SUPPORTED,
        text: "unsupported message type".to_string()
    });
    assert!(!node.initialized);
}

#[test]
fn missing_field_gets_malformed_error() {
    let mut node = ready_node();
    let mut b = wire("broadcast");
    b.msg_id = Some(7);
    let out = node.handle(msg(b));
    assert_eq!(
        reply(&out).body,
        RequestBody::Error { in_reply_to: 7, code: MALFORMED_REQUEST, text: "missing field".to_string() }
    );
    assert!(node.node.storage.messages.is_empty());
}

#[test]
fn missing_type_gets_malformed_error() {
    let mut node = ready_node();
    let mut b = wire("read");
    b.kind = None;
    b.msg_id = Some(8);
    let out = node.handle(msg(b));
    assert_eq!(
        reply(&out).body,
        RequestBody::Error {
            in_reply_to: 8,
            code: MALFORMED_REQUEST,
            text: "missing message type".to_string()
        }
    );
}

#[test]
fn undecodable_without_msg_id_gets_no_reply() {
    let mut node = ready_node();
    let out = node.handle(msg(wire("frobnicate")));
    assert_eq!(out, Ok(None));
}

#[test]
fn error_is_sent_back_unchanged() {
    let mut node = ready_node();
    let mut b = wire("error");
    b.in_reply_to = Some(3);
    b.code = Some(11);
    b.text = Some("temporarily unavailable".to_string());
    let out = node.handle(msg(b));
    let r = reply(&out);
    assert_eq!(r.src, "n1");
    assert_eq!(r.dest, "c1");
    assert_eq!(
        r.body,
        RequestBody::Error { in_reply_to: 3, code: 11, text: "temporarily unavailable".to_string() }
    );
}

#[test]
fn decode_rejects_reply_types() {
    let mut b = wire("read_ok");
    b.msg_id = Some(1);
    b.in_reply_to = Some(1);
    b.messages = Some(vec![]);
    assert_eq!(decode_body(b), Err(DecodeError::UnsupportedType));
}

#[test]
fn decode_ignores_extra_fields() {
    let mut b = read(3).body;
    b.text = Some("extra".to_string());
    b.code = Some(99);
    assert_eq!(decode_body(b), Ok(RequestBody::Read { msg_id: 3 }));
}

#[test]
fn encode_writes_tag_and_fields() {
    let w = encode_body(RequestBody::ReadOk { msg_id: 3, in_reply_to: 3, messages: vec![37] });
    let mut expected = wire("read_ok");
    expected.msg_id = Some(3);
    expected.in_reply_to = Some(3);
    expected.messages = Some(vec![37]);
    assert_eq!(w, expected);

    let m = encode(Message {
        src: "n1".to_string(),
        dest: "c1".to_string(),
        body: RequestBody::InitOk { in_reply_to: 1 },
    });
    assert_eq!(m.src, "n1");
    assert_eq!(m.dest, "c1");
    assert_eq!(m.body.kind, Some("init_ok".to_string()));
    assert_eq!(m.body.in_reply_to, Some(1));
    assert_eq!(m.body.msg_id, None);
}

#[test]
fn encode_then_decode_gives_back_the_request() {
    let requests = vec![
        RequestBody::Init { msg_id: 1, node_id: "n1".to_string(), node_ids: vec!["n1".to_string()] },
        RequestBody::Topology { msg_id: 2, topology: vec![("n1".to_string(), vec![])] },
        RequestBody::Read { msg_id: 3 },
        RequestBody::Broadcast { msg_id: 4, message: 9 },
        RequestBody::Error { in_reply_to: 5, code: 13, text: "crash".to_string() },
    ];
    for r in requests {
        assert_eq!(decode_body(encode_body(r.clone())), Ok(r));
    }
}

#[test]
fn storage_records_each_value_once() {
    let mut s = Storage::new();
    assert!(s.add_message(4));
    assert!(s.add_message(6));
    assert!(!s.add_message(4));
    assert_eq!(s.get_messages(), vec![4, 6]);
    assert!(s.contains(6));
    assert!(!s.contains(5));
    s.init_topology(vec![("n1".to_string(), vec!["n2".to_string()])]);
    assert_eq!(s.get_messages(), vec![4, 6]);
}

#[test]
fn node_init_takes_identity() {
    let m = Message {
        src: "c1".to_string(),
        dest: "n2".to_string(),
        body: RequestBody::Init {
            msg_id: 1,
            node_id: "n2".to_string(),
            node_ids: vec!["n1".to_string(), "n2".to_string()],
        },
    };
    let node = Node::init(m);
    assert_eq!(node.id, "n2");
    assert_eq!(node.peers, vec!["n1".to_string(), "n2".to_string()]);
    assert!(node.storage.messages.is_empty());
    assert!(node.storage.topology.is_empty());
}

#[test]
fn handlers_ignore_other_bodies() {
    let mut node = Node::empty();
    let m = Message { src: "c1".to_string(), dest: "n1".to_string(), body: RequestBody::Read { msg_id: 1 } };
    assert_eq!(node.on_topology(m.clone()), None);
    assert_eq!(node.on_broadcast(m.clone()), None);
    assert_eq!(node.on_error(m.clone()), None);
    assert!(node.on_read(m).is_some());
}

#[test]
fn init_ok_comes_from_the_request_dest() {
    let mut node = BroadcastNode::new();
    let m = Message {
        src: "c7".to_string(),
        dest: "addr-n3".to_string(),
        body: init(5, "n3", &["n3"]).body,
    };
    let out = node.handle(m);
    let r = reply(&out);
    assert_eq!(r.src, "addr-n3");
    assert_eq!(r.dest, "c7");
    assert_eq!(r.body, RequestBody::InitOk { in_reply_to: 5 });
    assert_eq!(node.node.id, "n3");
}

#[test]
fn topology_naming_a_node_twice_is_malformed() {
    let mut node = ready_node();
    let out = node.handle(topology(2, &[("n1", &["n2"]), ("n1", &["n3"])]));
    assert_eq!(
        reply(&out).body,
        RequestBody::Error {
            in_reply_to: 2,
            code: MALFORMED_REQUEST,
            text: "node named twice in topology".to_string()
        }
    );
    assert!(node.node.storage.topology.is_empty());
}

#[test]
fn every_input_is_handled_without_a_violation() {
    let mut node = BroadcastNode::new();
    let mut inputs = vec![init(1, "n1", &["n1"])];
    for i in 0..20u64 {
        inputs.push(broadcast(i + 2, i % 4));
    }
    inputs.push(read(30));
    let out = handle_messages(&mut node, inputs);
    assert_eq!(out.len(), 22);
    assert!(out.iter().all(|o| matches!(o, Ok(Some(_)))));
}
