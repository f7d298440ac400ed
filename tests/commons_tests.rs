use rabbitmq_http_model::commons::{
    BindingDestinationType, ExchangeType, PolicyTarget, QueueType, SupportedProtocol,
    UserLimitTarget, VirtualHostLimitTarget,
};

fn known_protocols() -> Vec<(SupportedProtocol, &'static str)> {
    vec![
        (SupportedProtocol::Clustering, "clustering"),
        (SupportedProtocol::AMQP, "amqp"),
        (SupportedProtocol::AMQPWithTLS, "amqps"),
        (SupportedProtocol::Stream, "stream"),
        (SupportedProtocol::StreamWithTLS, "stream/ssl"),
        (SupportedProtocol::MQTT, "mqtt"),
        (SupportedProtocol::MQTTWithTLS, "mqtt/ssl"),
        (SupportedProtocol::STOMP, "stomp"),
        (SupportedProtocol::STOMPWithTLS, "stomp/ssl"),
        (SupportedProtocol::MQTTOverWebSockets, "http/web-mqtt"),
        (SupportedProtocol::MQTTOverWebSocketsWithTLS, "https/web-mqtt"),
        (SupportedProtocol::STOMPOverWebsockets, "http/web-stomp"),
        (SupportedProtocol::STOMPOverWebsocketsWithTLS, "https/web-stomp"),
        (SupportedProtocol::Prometheus, "http/prometheus"),
        (SupportedProtocol::PrometheusWithTLS, "https/prometheus"),
        (SupportedProtocol::HTTP, "http"),
        (SupportedProtocol::HTTPWithTLS, "https"),
    ]
}

fn known_exchange_types() -> Vec<(ExchangeType, &'static str)> {
    vec![
        (ExchangeType::Fanout, "fanout"),
        (ExchangeType::Topic, "topic"),
        (ExchangeType::Direct, "direct"),
        (ExchangeType::Headers, "headers"),
        (ExchangeType::ConsistentHashing, "x-consistent-hash"),
        (ExchangeType::ModulusHash, "x-modulus-hash"),
        (ExchangeType::Random, "x-random"),
        (ExchangeType::LocalRandom, "x-local-random"),
        (ExchangeType::JmsTopic, "x-jms-topic"),
        (ExchangeType::RecentHistory, "x-recent-history"),
        (ExchangeType::DelayedMessage, "x-delayed-message"),
        (ExchangeType::MessageDeduplication, "x-message-deduplication"),
    ]
}

#[test]
fn protocol_wire_names_are_canonical() {
    for (p, w) in known_protocols() {
        assert_eq!(p.to_wire(), w);
        assert_eq!(SupportedProtocol::from(w), p);
    }
}

#[test]
fn protocol_known_round_trip() {
    for (p, _) in known_protocols() {
        let wire = p.to_wire();
        assert_eq!(SupportedProtocol::from(wire.as_str()), p);
    }
}

#[test]
fn protocol_unknown_name_is_kept() {
    let p = SupportedProtocol::from("amqp/ws");
    assert_eq!(p, SupportedProtocol::Other("amqp/ws".to_owned()));
    assert_eq!(p.to_wire(), "amqp/ws");
    assert_eq!(SupportedProtocol::from("AMQP"), SupportedProtocol::Other("AMQP".to_owned()));
    assert_eq!(SupportedProtocol::from(" amqp"), SupportedProtocol::Other(" amqp".to_owned()));
    assert_eq!(SupportedProtocol::from(""), SupportedProtocol::Other(String::new()));
}

#[test]
fn stomp_over_websockets_uses_one_name_both_ways() {
    assert_eq!(SupportedProtocol::STOMPOverWebsockets.to_wire(), "http/web-stomp");
    assert_eq!(SupportedProtocol::from("http/web-stomp"), SupportedProtocol::STOMPOverWebsockets);
    assert_eq!(
        SupportedProtocol::from("http/stomp-mqtt"),
        SupportedProtocol::Other("http/stomp-mqtt".to_owned())
    );
}

#[test]
fn exchange_type_known_round_trip() {
    for (t, w) in known_exchange_types() {
        assert_eq!(t.to_wire(), w);
        assert_eq!(ExchangeType::from(t.to_wire().as_str()), t);
    }
}

#[test]
fn exchange_type_plugin_name_is_kept() {
    let t = ExchangeType::from("x-custom-plugin");
    assert_eq!(t, ExchangeType::Plugin("x-custom-plugin".to_owned()));
    assert_eq!(t.to_wire(), "x-custom-plugin");
    assert_eq!(ExchangeType::from("Fanout"), ExchangeType::Plugin("Fanout".to_owned()));
}

#[test]
fn queue_type_round_trip_and_default() {
    for (q, w) in [
        (QueueType::Classic, "classic"),
        (QueueType::Quorum, "quorum"),
        (QueueType::Stream, "stream"),
    ] {
        assert_eq!(q.to_wire(), w);
        assert_eq!(QueueType::from(w), q);
    }
    assert_eq!(QueueType::from("delayed"), QueueType::Classic);
    assert_eq!(QueueType::from("Quorum"), QueueType::Classic);
    assert_eq!(QueueType::from(""), QueueType::Classic);
}

#[test]
fn binding_destination_round_trip_and_default() {
    assert_eq!(BindingDestinationType::Queue.to_wire(), "queue");
    assert_eq!(BindingDestinationType::Exchange.to_wire(), "exchange");
    assert_eq!(BindingDestinationType::from("exchange"), BindingDestinationType::Exchange);
    assert_eq!(BindingDestinationType::from("queue"), BindingDestinationType::Queue);
    assert_eq!(BindingDestinationType::from("stream"), BindingDestinationType::Queue);
    assert_eq!(BindingDestinationType::Queue.path_appreviation(), "q");
    assert_eq!(BindingDestinationType::Exchange.path_appreviation(), "e");
}

#[test]
fn policy_target_round_trip_and_default() {
    for (t, w) in [
        (PolicyTarget::Queues, "queues"),
        (PolicyTarget::ClassicQueues, "classic_queues"),
        (PolicyTarget::QuorumQueues, "quorum_queues"),
        (PolicyTarget::Streams, "streams"),
        (PolicyTarget::Exchanges, "exchanges"),
        (PolicyTarget::All, "all"),
    ] {
        assert_eq!(t.to_wire(), w);
        assert_eq!(PolicyTarget::from(w), t);
    }
    assert_eq!(PolicyTarget::from("classic-queues"), PolicyTarget::Queues);
}

#[test]
fn limit_targets_round_trip_and_default() {
    assert_eq!(VirtualHostLimitTarget::MaxConnections.as_ref(), "max-connections");
    assert_eq!(VirtualHostLimitTarget::MaxQueues.as_ref(), "max-queues");
    assert_eq!(VirtualHostLimitTarget::from("max-queues"), VirtualHostLimitTarget::MaxQueues);
    assert_eq!(VirtualHostLimitTarget::from("max-channels"), VirtualHostLimitTarget::MaxConnections);
    assert_eq!(VirtualHostLimitTarget::MaxQueues.to_wire(), "max-queues");
    assert_eq!(UserLimitTarget::MaxConnections.as_ref(), "max-connections");
    assert_eq!(UserLimitTarget::MaxChannels.as_ref(), "max-channels");
    assert_eq!(UserLimitTarget::from("max-channels"), UserLimitTarget::MaxChannels);
    assert_eq!(UserLimitTarget::from("max-queues"), UserLimitTarget::MaxConnections);
    assert_eq!(UserLimitTarget::MaxChannels.to_wire(), "max-channels");
}
