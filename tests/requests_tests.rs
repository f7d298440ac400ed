use rabbitmq_http_model::commons::{
    ExchangeType, PolicyTarget, QueueType, UserLimitTarget, VirtualHostLimitTarget,
};
use rabbitmq_http_model::json::{JsonList, JsonMap, JsonNumber, JsonValue};
use rabbitmq_http_model::requests::{
    EnforcedLimitParams, ExchangeParams, Permissions, PolicyParams, QueueParams, UserParams,
    VirtualHostParams,
};

fn text(s: &str) -> JsonValue {
    JsonValue::String(s.to_owned())
}

fn num(n: u64) -> JsonValue {
    JsonValue::Number(JsonNumber::PosInt(n))
}

fn args(entries: Vec<(&str, JsonValue)>) -> JsonMap {
    let mut m = JsonMap::new();
    for (k, v) in entries {
        m.insert(k.to_owned(), v);
    }
    m
}

fn count(m: &JsonMap) -> usize {
    let mut keys: Vec<&String> = Vec::new();
    let mut cur = m;
    while let JsonMap::Entry(k, _, rest) = cur {
        if !keys.contains(&k) {
            keys.push(k);
        }
        cur = rest;
    }
    keys.len()
}

#[test]
fn durable_quorum_queue_without_arguments_has_only_the_kind_marker() {
    let p = QueueParams::new_quorum_queue("q1", None);
    assert_eq!(p.name, "q1");
    assert_eq!(p.queue_type, QueueType::Quorum);
    assert!(p.durable && !p.auto_delete && !p.exclusive);
    let a = p.arguments.expect("arguments");
    assert_eq!(count(&a), 1);
    assert_eq!(a.get("x-queue-type"), Some(&text("quorum")));
}

#[test]
fn durable_classic_queue_keeps_caller_arguments() {
    let p = QueueParams::new_durable_classic_queue("q1", Some(args(vec![("x-max-length", num(10000))])));
    let a = p.arguments.expect("arguments");
    assert_eq!(count(&a), 2);
    assert_eq!(a.get("x-queue-type"), Some(&text("classic")));
    assert_eq!(a.get("x-max-length"), Some(&num(10000)));
}

#[test]
fn caller_marker_wins_over_typed_kind() {
    let caller = args(vec![("x-queue-type", text("quorum")), ("x-max-length", num(10000))]);
    let p = QueueParams::new_durable_classic_queue("q1", Some(caller));
    assert_eq!(p.queue_type, QueueType::Classic);
    let a = p.arguments.expect("arguments");
    assert_eq!(count(&a), 2);
    assert_eq!(a.get("x-queue-type"), Some(&text("quorum")));
}

#[test]
fn stream_and_general_constructor() {
    let s = QueueParams::new_stream("s1", Some(args(vec![("x-max-length-bytes", num(10_000_000))])));
    let a = s.arguments.expect("arguments");
    assert_eq!(a.get("x-queue-type"), Some(&text("stream")));
    assert_eq!(a.get("x-max-length-bytes"), Some(&num(10_000_000)));

    let q = QueueParams::new("q2", QueueType::Quorum, false, true, None);
    assert!(!q.durable && q.auto_delete && !q.exclusive);
    let a = q.arguments.expect("arguments");
    assert_eq!(count(&a), 1);
    assert_eq!(a.get("x-queue-type"), Some(&text("quorum")));

    let c = QueueParams::combined_args(None, &QueueType::Stream).expect("arguments");
    assert_eq!(c.get("x-queue-type"), Some(&text("stream")));
}

#[test]
fn queue_payload_leaves_the_kind_in_the_arguments() {
    let p = QueueParams::new_quorum_queue("q1", None);
    let m = p.to_json();
    assert_eq!(m.get("name"), Some(&text("q1")));
    assert_eq!(m.get("durable"), Some(&JsonValue::Bool(true)));
    assert_eq!(m.get("auto_delete"), Some(&JsonValue::Bool(false)));
    assert_eq!(m.get("exclusive"), Some(&JsonValue::Bool(false)));
    assert_eq!(m.get("queue_type"), None);
    match m.get("arguments") {
        Some(JsonValue::Object(a)) => assert_eq!(a.get("x-queue-type"), Some(&text("quorum"))),
        other => panic!("arguments: {:?}", other),
    }
}

#[test]
fn exchange_constructors_add_no_arguments() {
    let e = ExchangeParams::durable_fanout("logs", None);
    assert_eq!(e.exchange_type, ExchangeType::Fanout);
    assert!(e.durable && !e.auto_delete && e.arguments.is_none());
    let t = ExchangeParams::topic("t", false, true, None);
    assert_eq!(t.exchange_type, ExchangeType::Topic);
    assert!(!t.durable && t.auto_delete);
    assert_eq!(ExchangeParams::durable_direct("d", None).exchange_type, ExchangeType::Direct);
    assert_eq!(ExchangeParams::durable_headers("h", None).exchange_type, ExchangeType::Headers);
    assert_eq!(ExchangeParams::durable_topic("t", None).exchange_type, ExchangeType::Topic);
    assert_eq!(ExchangeParams::direct("d", true, false, None).exchange_type, ExchangeType::Direct);
    assert_eq!(ExchangeParams::headers("h", true, false, None).exchange_type, ExchangeType::Headers);
    assert_eq!(ExchangeParams::fanout("f", true, false, None).exchange_type, ExchangeType::Fanout);
    let p = ExchangeParams::durable("p", ExchangeType::Plugin("x-custom".to_owned()), Some(args(vec![("a", num(1))])));
    let m = p.to_json();
    assert_eq!(m.get("type"), Some(&text("x-custom")));
    match m.get("arguments") {
        Some(JsonValue::Object(a)) => {
            assert_eq!(count(a), 1);
            assert_eq!(a.get("a"), Some(&num(1)));
        },
        other => panic!("arguments: {:?}", other),
    }
}

#[test]
fn virtual_host_params() {
    let p = VirtualHostParams::named("vh1");
    assert_eq!(p.name, "vh1");
    assert!(p.description.is_none() && p.tags.is_none() && p.default_queue_type.is_none() && !p.tracing);
    let m = p.to_json();
    assert_eq!(count(&m), 2);
    assert_eq!(m.get("name"), Some(&text("vh1")));
    assert_eq!(m.get("tracing"), Some(&JsonValue::Bool(false)));

    let full = VirtualHostParams {
        name: "vh2",
        description: Some("vh2 description"),
        tags: Some(vec!["tag-a", "tag-b"]),
        default_queue_type: Some(QueueType::Quorum),
        tracing: true,
    };
    let m = full.to_json();
    assert_eq!(count(&m), 5);
    assert_eq!(m.get("description"), Some(&text("vh2 description")));
    assert_eq!(
        m.get("tags"),
        Some(&JsonValue::Array(JsonList::from_vec(vec![text("tag-a"), text("tag-b")])))
    );
    assert_eq!(m.get("default_queue_type"), Some(&text("quorum")));
}

#[test]
fn limit_params() {
    let l = EnforcedLimitParams::new(VirtualHostLimitTarget::MaxQueues, 500);
    assert_eq!(l.value, 500);
    let m = l.to_json();
    assert_eq!(m.get("kind"), Some(&text("max-queues")));
    assert_eq!(m.get("value"), Some(&num(500)));
    let u = EnforcedLimitParams::new(UserLimitTarget::MaxChannels, -1);
    let m = u.to_json();
    assert_eq!(m.get("kind"), Some(&text("max-channels")));
    assert_eq!(m.get("value"), Some(&JsonValue::Number(JsonNumber::NegInt(-1))));
}

#[test]
fn user_policy_and_permission_payloads() {
    let u = UserParams { name: "u", password_hash: "SECRET-REDACTED", tags: "administrator" };
    let m = u.to_json();
    assert_eq!(count(&m), 3);
    assert_eq!(m.get("tags"), Some(&text("administrator")));

    let p = PolicyParams {
        vhost: "/",
        name: "p",
        pattern: "^q",
        apply_to: PolicyTarget::QuorumQueues,
        priority: 2,
        definition: None,
    };
    let m = p.to_json();
    assert_eq!(m.get("apply-to"), Some(&text("quorum_queues")));
    assert_eq!(m.get("priority"), Some(&num(2)));
    assert_eq!(m.get("definition"), Some(&JsonValue::Null));

    let g = Permissions { user: "u", vhost: "/", configure: ".*", read: ".*", write: "" };
    let m = g.to_json();
    assert_eq!(count(&m), 5);
    assert_eq!(m.get("write"), Some(&text("")));
}

#[test]
fn append_lets_later_members_win() {
    let mut a = args(vec![("k", num(1)), ("j", num(2))]);
    let b = args(vec![("k", num(3))]);
    a.append(&b);
    assert_eq!(a.get("k"), Some(&num(3)));
    assert_eq!(a.get("j"), Some(&num(2)));
    assert_eq!(count(&a), 2);
}
