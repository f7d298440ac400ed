use rabbitmq_http_model::commons::{BindingDestinationType, PolicyTarget};
use rabbitmq_http_model::json::{DecodeError, JsonList, JsonMap, JsonNumber, JsonValue};
use rabbitmq_http_model::records::{decode, Encode};
use rabbitmq_http_model::responses::{
    ClusterNode, Connection, DefinitionSet, GetMessage, HealthCheckFailureDetails, MessageList,
    MessageRouted, NodeList, Overview, Policy, QueueInfo, RuntimeParameter, TagList, User,
    VirtualHost,
};

fn text(s: &str) -> JsonValue {
    JsonValue::String(s.to_owned())
}

fn num(n: u64) -> JsonValue {
    JsonValue::Number(JsonNumber::PosInt(n))
}

fn arr(items: Vec<JsonValue>) -> JsonValue {
    JsonValue::Array(JsonList::from_vec(items))
}

fn map(entries: Vec<(&str, JsonValue)>) -> JsonMap {
    let mut m = JsonMap::new();
    for (k, v) in entries {
        m.insert(k.to_owned(), v);
    }
    m
}

fn obj(entries: Vec<(&str, JsonValue)>) -> JsonValue {
    JsonValue::Object(map(entries))
}

fn message(properties: JsonValue) -> JsonValue {
    obj(vec![
        ("payload_bytes", num(5)),
        ("redelivered", JsonValue::Bool(false)),
        ("exchange", text("")),
        ("routing_key", text("q1")),
        ("message_count", num(0)),
        ("properties", properties),
        ("payload", text("hello")),
        ("payload_encoding", text("string")),
    ])
}

fn queue(kind: &str, replicas: bool) -> JsonValue {
    let mut m = map(vec![
        ("name", text("q1")),
        ("vhost", text("/")),
        ("type", text(kind)),
        ("durable", JsonValue::Bool(true)),
        ("auto_delete", JsonValue::Bool(false)),
        ("exclusive", JsonValue::Bool(false)),
        ("arguments", obj(vec![("x-queue-type", text(kind))])),
        ("messages", num(7)),
        ("consumer_utilisation", JsonValue::Number(JsonNumber::Float("0.5".to_owned()))),
    ]);
    if replicas {
        m.insert("leader".to_owned(), text("rabbit@a"));
        m.insert("members".to_owned(), arr(vec![text("rabbit@a"), text("rabbit@b")]));
        m.insert("online".to_owned(), arr(vec![text("rabbit@a")]));
    }
    JsonValue::Object(m)
}

#[test]
fn message_properties_as_empty_sequence_decode_to_empty_map() {
    let m: GetMessage = decode(&message(arr(vec![]))).expect("decodes");
    assert_eq!(m.properties.0, JsonMap::Empty);
    assert_eq!(m.payload, "hello");
}

#[test]
fn message_properties_as_map_are_kept() {
    let props = map(vec![("content_type", text("text/plain"))]);
    let m: GetMessage = decode(&message(JsonValue::Object(map(vec![("content_type", text("text/plain"))])))).expect("decodes");
    assert_eq!(m.properties.0, props);
}

#[test]
fn message_properties_of_another_shape_fail() {
    let r = decode::<GetMessage>(&message(text("none")));
    assert_eq!(r, Err(DecodeError::InvalidField("properties".to_owned())));
}

#[test]
fn message_list_decodes_each_message() {
    let l = MessageList::from_json(&arr(vec![message(arr(vec![])), message(obj(vec![]))])).expect("decodes");
    assert_eq!(l.0.len(), 2);
    assert!(MessageList::from_json(&arr(vec![text("x")])).is_err());
}

#[test]
fn runtime_parameter_value_as_sequence_is_empty() {
    let v = obj(vec![("name", text("p")), ("vhost", text("/")), ("component", text("federation")), ("value", arr(vec![num(1)]))]);
    let p: RuntimeParameter = decode(&v).expect("decodes");
    assert_eq!(p.value.0, JsonMap::Empty);
}

#[test]
fn queue_without_replica_fields_decodes_them_as_absent() {
    let q: QueueInfo = decode(&queue("classic", false)).expect("decodes");
    assert!(q.leader.is_none() && q.members.is_none() && q.online.is_none());
    assert_eq!(q.message_count, 7);
    assert_eq!(q.node, "?");
    assert_eq!(q.state, "");
    assert_eq!(q.memory, 0);
    assert_eq!(q.consumer_utilisation, JsonNumber::Float("0.5".to_owned()));
}

#[test]
fn classic_queue_with_replica_fields_still_decodes() {
    let q: QueueInfo = decode(&queue("classic", true)).expect("decodes");
    assert_eq!(q.leader, Some("rabbit@a".to_owned()));
    assert_eq!(q.members, Some(NodeList(vec!["rabbit@a".to_owned(), "rabbit@b".to_owned()])));
    assert_eq!(q.online.as_ref().map(|n| n.0.len()), Some(1));
    let qq: QueueInfo = decode(&queue("quorum", true)).expect("decodes");
    assert_eq!(qq.queue_type, "quorum");
}

#[test]
fn queue_missing_a_required_field_names_it() {
    let mut v = queue("classic", false);
    if let JsonValue::Object(m) = &mut v {
        m.insert("durable".to_owned(), text("yes"));
    }
    assert_eq!(decode::<QueueInfo>(&v), Err(DecodeError::InvalidField("durable".to_owned())));
    assert_eq!(decode::<QueueInfo>(&obj(vec![])), Err(DecodeError::MissingField("name".to_owned())));
    assert_eq!(decode::<QueueInfo>(&text("q")), Err(DecodeError::NotAnObject));
}

fn node(pid: JsonValue) -> JsonValue {
    obj(vec![
        ("name", text("rabbit@a")),
        ("uptime", num(1000)),
        ("run_queue", num(0)),
        ("processors", num(8)),
        ("os_pid", pid),
        ("fd_total", num(1024)),
        ("proc_total", num(1048576)),
        ("mem_limit", num(1 << 33)),
        ("mem_alarm", JsonValue::Bool(false)),
        ("disk_free_limit", num(50_000_000)),
        ("disk_free_alarm", JsonValue::Bool(false)),
        ("rates_mode", text("basic")),
    ])
}

#[test]
fn process_identifier_as_text_or_number() {
    let n: ClusterNode = decode(&node(text("4242"))).expect("decodes");
    assert_eq!(n.os_pid, 4242);
    let n: ClusterNode = decode(&node(text("+17"))).expect("decodes");
    assert_eq!(n.os_pid, 17);
    let n: ClusterNode = decode(&node(num(99))).expect("decodes");
    assert_eq!(n.os_pid, 99);
    assert_eq!(n.memory_high_watermark, 1 << 33);
    assert_eq!(decode::<ClusterNode>(&node(text("42a"))), Err(DecodeError::InvalidField("os_pid".to_owned())));
    assert_eq!(decode::<ClusterNode>(&node(text("4294967296"))), Err(DecodeError::InvalidField("os_pid".to_owned())));
    assert_eq!(decode::<ClusterNode>(&node(text(""))), Err(DecodeError::InvalidField("os_pid".to_owned())));
    assert_eq!(decode::<ClusterNode>(&node(num(1 << 32))), Err(DecodeError::InvalidField("os_pid".to_owned())));
}

fn overview(tags: bool) -> JsonValue {
    let mut m = map(vec![
        ("cluster_name", text("c")),
        ("node", text("rabbit@a")),
        ("erlang_full_version", text("Erlang/OTP 26")),
        ("erlang_version", text("26.2")),
        ("rabbitmq_version", text("4.0.0")),
        ("product_name", text("RabbitMQ")),
        ("product_version", text("4.0.0")),
        ("statistics_db_event_queue", num(0)),
        (
            "churn_rates",
            obj(vec![
                ("connection_created", num(1)),
                ("connection_closed", num(2)),
                ("queue_declared", num(3)),
                ("queue_created", num(4)),
                ("queue_deleted", num(5)),
                ("channel_created", num(6)),
                ("channel_closed", num(7)),
            ]),
        ),
    ]);
    if tags {
        m.insert("cluster_tags".to_owned(), obj(vec![("region", text("eu"))]));
        m.insert("node_tags".to_owned(), JsonValue::Null);
    }
    JsonValue::Object(m)
}

#[test]
fn overview_tag_maps_are_optional() {
    let o: Overview = decode(&overview(false)).expect("decodes");
    assert!(o.cluster_tags.is_none() && o.node_tags.is_none());
    assert_eq!(o.churn_rates.channel_closed, 7);
    let o: Overview = decode(&overview(true)).expect("decodes");
    assert_eq!(o.cluster_tags.map(|t| t.0), Some(map(vec![("region", text("eu"))])));
    assert!(o.node_tags.is_none());
}

#[test]
fn health_check_details_by_evidence() {
    let alarms = obj(vec![
        ("reason", text("resource alarm(s) in effect")),
        ("alarms", arr(vec![obj(vec![("node", text("rabbit@a")), ("resource", text("memory"))])])),
    ]);
    match decode::<HealthCheckFailureDetails>(&alarms).expect("decodes") {
        HealthCheckFailureDetails::AlarmCheck(d) => {
            assert_eq!(d.alarms.len(), 1);
            assert_eq!(d.alarms[0].resource, "memory");
        },
        other => panic!("{:?}", other),
    }
    let queues = obj(vec![
        ("reason", text("quorum critical")),
        ("queues", arr(vec![obj(vec![("name", text("q")), ("virtual_host", text("/")), ("type", text("quorum"))])])),
    ]);
    match decode::<HealthCheckFailureDetails>(&queues).expect("decodes") {
        HealthCheckFailureDetails::NodeIsQuorumCritical(d) => {
            assert_eq!(d.queues[0].vhost, "/");
            assert_eq!(d.queues[0].queue_type, "quorum");
        },
        other => panic!("{:?}", other),
    }
    assert_eq!(
        decode::<HealthCheckFailureDetails>(&obj(vec![("reason", text("?"))])),
        Err(DecodeError::MissingField("queues".to_owned()))
    );
}

#[test]
fn connection_defaults() {
    let c = obj(vec![
        ("name", text("127.0.0.1:5000 -> 127.0.0.1:5672")),
        ("node", text("rabbit@a")),
        ("protocol", text("AMQP 0-9-1")),
        ("user", text("guest")),
        ("connected_at", num(1700000000000)),
        ("host", text("127.0.0.1")),
        ("port", num(5672)),
        ("peer_host", text("127.0.0.1")),
        ("peer_port", num(5000)),
        ("channel_max", num(2047)),
        ("client_properties", obj(vec![("product", text("client"))])),
    ]);
    let c: Connection = decode(&c).expect("decodes");
    assert_eq!(c.state, "?");
    assert_eq!(c.channel_count, 0);
    assert_eq!(c.server_port, 5672);
    assert_eq!(c.client_properties.product, "client");
    assert_eq!(c.client_properties.platform, "");
    assert!(c.client_properties.capabilities.is_none());
}

#[test]
fn policy_target_decodes_with_default() {
    let p = obj(vec![
        ("name", text("p")),
        ("vhost", text("/")),
        ("pattern", text(".*")),
        ("apply-to", text("everything")),
        ("priority", JsonValue::Number(JsonNumber::NegInt(-3))),
        ("definition", obj(vec![("max-length", num(10))])),
    ]);
    let p: Policy = decode(&p).expect("decodes");
    assert_eq!(p.apply_to, PolicyTarget::Queues);
    assert_eq!(p.priority, -3);
}

#[test]
fn tag_list_display() {
    assert_eq!(TagList(vec![]).to_display_string(), "[]");
    assert_eq!(TagList(vec!["a".to_owned()]).to_display_string(), "[a]");
    assert_eq!(
        NodeList(vec!["a".to_owned(), "b".to_owned(), "c".to_owned()]).to_display_string(),
        "[a, b, c]"
    );
    assert_eq!(MessageRouted { routed: false }.to_display_string(), "Message published but NOT routed");
    assert_eq!(MessageRouted { routed: true }.to_display_string(), "Message published and routed successfully");
}

fn definitions() -> JsonValue {
    obj(vec![
        ("rabbitmq_version", text("4.0.5")),
        (
            "users",
            arr(vec![obj(vec![
                ("name", text("guest")),
                ("password_hash", text("SECRET-REDACTED")),
                ("tags", arr(vec![text("administrator")])),
            ])]),
        ),
        (
            "vhosts",
            arr(vec![obj(vec![
                ("name", text("/")),
                ("description", text("Default virtual host")),
                ("tags", arr(vec![])),
                ("metadata", obj(vec![("description", text("Default virtual host")), ("tags", arr(vec![]))])),
            ])]),
        ),
        (
            "permissions",
            arr(vec![obj(vec![
                ("user", text("guest")),
                ("vhost", text("/")),
                ("configure", text(".*")),
                ("read", text(".*")),
                ("write", text(".*")),
            ])]),
        ),
        ("parameters", arr(vec![])),
        (
            "policies",
            arr(vec![obj(vec![
                ("name", text("cq")),
                ("vhost", text("/")),
                ("pattern", text("^cq\\.")),
                ("apply-to", text("classic_queues")),
                ("priority", num(0)),
                ("definition", obj(vec![("max-length", num(100))])),
            ])]),
        ),
        (
            "queues",
            arr(vec![obj(vec![
                ("name", text("cq.1")),
                ("vhost", text("/")),
                ("durable", JsonValue::Bool(true)),
                ("auto_delete", JsonValue::Bool(false)),
                ("arguments", obj(vec![("x-queue-type", text("classic"))])),
            ])]),
        ),
        (
            "exchanges",
            arr(vec![obj(vec![
                ("name", text("logs")),
                ("vhost", text("/")),
                ("type", text("fanout")),
                ("durable", JsonValue::Bool(true)),
                ("auto_delete", JsonValue::Bool(false)),
                ("arguments", obj(vec![])),
            ])]),
        ),
        (
            "bindings",
            arr(vec![obj(vec![
                ("vhost", text("/")),
                ("source", text("logs")),
                ("destination", text("cq.1")),
                ("destination_type", text("queue")),
                ("routing_key", text("")),
                ("arguments", obj(vec![])),
            ])]),
        ),
    ])
}

#[test]
fn definition_set_round_trip_keeps_every_field() {
    let d: DefinitionSet = decode(&definitions()).expect("decodes");
    assert_eq!(d.server_version, "4.0.5");
    assert_eq!(d.users[0].tags, TagList(vec!["administrator".to_owned()]));
    assert_eq!(d.bindings[0].destination_type, BindingDestinationType::Queue);
    assert_eq!(d.exchanges[0].exchange_type, "fanout");
    assert_eq!(d.policies[0].apply_to, PolicyTarget::ClassicQueues);

    let encoded = JsonValue::Object(d.to_map());
    let back: DefinitionSet = decode(&encoded).expect("decodes again");
    assert_eq!(back, d);

    if let JsonValue::Object(e) = &encoded {
        assert_eq!(e.get("rabbitmq_version"), Some(&text("4.0.5")));
        match e.get("queues") {
            Some(JsonValue::Array(JsonList::Cons(q, _))) => match &**q {
                JsonValue::Object(q) => {
                    assert_eq!(q.get("name"), Some(&text("cq.1")));
                    assert_eq!(q.get("durable"), Some(&JsonValue::Bool(true)));
                    match q.get("arguments") {
                        Some(JsonValue::Object(a)) => assert_eq!(a.get("x-queue-type"), Some(&text("classic"))),
                        other => panic!("{:?}", other),
                    }
                },
                other => panic!("{:?}", other),
            },
            other => panic!("{:?}", other),
        }
        match e.get("vhosts") {
            Some(JsonValue::Array(JsonList::Cons(v, _))) => match &**v {
                JsonValue::Object(v) => assert_eq!(v.get("description"), Some(&text("Default virtual host"))),
                other => panic!("{:?}", other),
            },
            other => panic!("{:?}", other),
        }
    }
}

#[test]
fn user_and_virtual_host_encode_back() {
    let u: User = decode(&obj(vec![
        ("name", text("u")),
        ("password_hash", text("h")),
        ("tags", arr(vec![text("a"), text("b")])),
    ]))
    .expect("decodes");
    let back: User = decode(&JsonValue::Object(u.to_map())).expect("decodes again");
    assert_eq!(back, u);
    let bad = decode::<User>(&obj(vec![("name", text("u")), ("password_hash", text("h")), ("tags", arr(vec![num(1)]))]));
    assert_eq!(bad, Err(DecodeError::InvalidField("tags".to_owned())));
    let v = decode::<VirtualHost>(&obj(vec![("name", text("/")), ("metadata", obj(vec![]))])).expect("decodes");
    assert!(v.tags.is_none() && v.description.is_none() && v.metadata.tags.is_none());
}
