use vstd::prelude::*;

verus! {

/// Compares two strings character by character.
pub fn str_eq(a: &str, b: &str) -> (r: bool)
    ensures
        r == (a@ == b@),
{
    let n = a.unicode_len();
    if n != b.unicode_len() {
        return false;
    }
    let mut i: usize = 0;
    while i < n
        invariant
            n == a@.len(),
            n == b@.len(),
            i <= n,
            forall|j: int| 0 <= j < i ==> a@[j] == b@[j],
        decreases n - i,
    {
        if a.get_char(i) != b.get_char(i) {
            return false;
        }
        i = i + 1;
    }
    assert(a@ =~= b@);
    true
}

/// A listener protocol, as the broker names it. Names outside the known set
/// decode to `Other`, which keeps the name as it came.
#[derive(Debug, Clone, PartialEq, Eq)]
pub enum SupportedProtocol {
    Clustering,
    /// AMQP 1.0 and AMQP 0-9-1, which share a listener.
    AMQP,
    /// AMQP 1.0 and AMQP 0-9-1 with TLS enabled.
    AMQPWithTLS,
    /// The stream protocol.
    Stream,
    /// The stream protocol with TLS enabled.
    StreamWithTLS,
    MQTT,
    MQTTWithTLS,
    STOMP,
    STOMPWithTLS,
    MQTTOverWebSockets,
    MQTTOverWebSocketsWithTLS,
    STOMPOverWebsockets,
    STOMPOverWebsocketsWithTLS,
    Prometheus,
    PrometheusWithTLS,
    HTTP,
    HTTPWithTLS,
    Other(String),
}

impl SupportedProtocol {
    /// The name that stands for this value on the wire.
    pub open spec fn wire(self) -> Seq<char> {
        match self {
            SupportedProtocol::Clustering => "clustering"@,
            SupportedProtocol::AMQP => "amqp"@,
            SupportedProtocol::AMQPWithTLS => "amqps"@,
            SupportedProtocol::Stream => "stream"@,
            SupportedProtocol::StreamWithTLS => "stream/ssl"@,
            SupportedProtocol::MQTT => "mqtt"@,
            SupportedProtocol::MQTTWithTLS => "mqtt/ssl"@,
            SupportedProtocol::STOMP => "stomp"@,
            SupportedProtocol::STOMPWithTLS => "stomp/ssl"@,
            SupportedProtocol::MQTTOverWebSockets => "http/web-mqtt"@,
            SupportedProtocol::MQTTOverWebSocketsWithTLS => "https/web-mqtt"@,
            SupportedProtocol::STOMPOverWebsockets => "http/web-stomp"@,
            SupportedProtocol::STOMPOverWebsocketsWithTLS => "https/web-stomp"@,
            SupportedProtocol::Prometheus => "http/prometheus"@,
            SupportedProtocol::PrometheusWithTLS => "https/prometheus"@,
            SupportedProtocol::HTTP => "http"@,
            SupportedProtocol::HTTPWithTLS => "https"@,
            SupportedProtocol::Other(s) => s@,
        }
    }

    /// The known variant that `s` names, if any.
    pub open spec fn known(s: Seq<char>) -> Option<SupportedProtocol> {
        if s == "clustering"@ {
            Some(SupportedProtocol::Clustering)
        } else if s == "amqp"@ {
            Some(SupportedProtocol::AMQP)
        } else if s == "amqps"@ {
            Some(SupportedProtocol::AMQPWithTLS)
        } else if s == "stream"@ {
            Some(SupportedProtocol::Stream)
        } else if s == "stream/ssl"@ {
            Some(SupportedProtocol::StreamWithTLS)
        } else if s == "mqtt"@ {
            Some(SupportedProtocol::MQTT)
        } else if s == "mqtt/ssl"@ {
            Some(SupportedProtocol::MQTTWithTLS)
        } else if s == "stomp"@ {
            Some(SupportedProtocol::STOMP)
        } else if s == "stomp/ssl"@ {
            Some(SupportedProtocol::STOMPWithTLS)
        } else if s == "http/web-mqtt"@ {
            Some(SupportedProtocol::MQTTOverWebSockets)
        } else if s == "https/web-mqtt"@ {
            Some(SupportedProtocol::MQTTOverWebSocketsWithTLS)
        } else if s == "http/web-stomp"@ {
            Some(SupportedProtocol::STOMPOverWebsockets)
        } else if s == "https/web-stomp"@ {
            Some(SupportedProtocol::STOMPOverWebsocketsWithTLS)
        } else if s == "http/prometheus"@ {
            Some(SupportedProtocol::Prometheus)
        } else if s == "https/prometheus"@ {
            Some(SupportedProtocol::PrometheusWithTLS)
        } else if s == "http"@ {
            Some(SupportedProtocol::HTTP)
        } else if s == "https"@ {
            Some(SupportedProtocol::HTTPWithTLS)
        } else {
            None
        }
    }

    /// `v` is what `s` decodes to: its known variant, else `Other` holding `s`.
    pub open spec fn decodes_to(s: Seq<char>, v: SupportedProtocol) -> bool {
        match SupportedProtocol::known(s) {
            Some(k) => v == k,
            None => v is Other && v->0@ == s,
        }
    }

    /// Decodes a wire name; never fails.
    pub fn from(value: &str) -> (r: SupportedProtocol)
        ensures
            SupportedProtocol::decodes_to(value@, r),
    {
        if str_eq(value, "clustering") {
            SupportedProtocol::Clustering
        } else if str_eq(value, "amqp") {
            SupportedProtocol::AMQP
        } else if str_eq(value, "amqps") {
            SupportedProtocol::AMQPWithTLS
        } else if str_eq(value, "stream") {
            SupportedProtocol::Stream
        } else if str_eq(value, "stream/ssl") {
            SupportedProtocol::StreamWithTLS
        } else if str_eq(value, "mqtt") {
            SupportedProtocol::MQTT
        } else if str_eq(value, "mqtt/ssl") {
            SupportedProtocol::MQTTWithTLS
        } else if str_eq(value, "stomp") {
            SupportedProtocol::STOMP
        } else if str_eq(value, "stomp/ssl") {
            SupportedProtocol::STOMPWithTLS
        } else if str_eq(value, "http/web-mqtt") {
            SupportedProtocol::MQTTOverWebSockets
        } else if str_eq(value, "https/web-mqtt") {
            SupportedProtocol::MQTTOverWebSocketsWithTLS
        } else if str_eq(value, "http/web-stomp") {
            SupportedProtocol::STOMPOverWebsockets
        } else if str_eq(value, "https/web-stomp") {
            SupportedProtocol::STOMPOverWebsocketsWithTLS
        } else if str_eq(value, "http/prometheus") {
            SupportedProtocol::Prometheus
        } else if str_eq(value, "https/prometheus") {
            SupportedProtocol::PrometheusWithTLS
        } else if str_eq(value, "http") {
            SupportedProtocol::HTTP
        } else if str_eq(value, "https") {
            SupportedProtocol::HTTPWithTLS
        } else {
            SupportedProtocol::Other(value.to_string())
        }
    }

    /// Encodes this value as its wire name.
    pub fn to_wire(&self) -> (r: String)
        ensures
            r@ == self.wire(),
    {
        match self {
            SupportedProtocol::Clustering => "clustering".to_string(),
            SupportedProtocol::AMQP => "amqp".to_string(),
            SupportedProtocol::AMQPWithTLS => "amqps".to_string(),
            SupportedProtocol::Stream => "stream".to_string(),
            SupportedProtocol::StreamWithTLS => "stream/ssl".to_string(),
            SupportedProtocol::MQTT => "mqtt".to_string(),
            SupportedProtocol::MQTTWithTLS => "mqtt/ssl".to_string(),
            SupportedProtocol::STOMP => "stomp".to_string(),
            SupportedProtocol::STOMPWithTLS => "stomp/ssl".to_string(),
            SupportedProtocol::MQTTOverWebSockets => "http/web-mqtt".to_string(),
            SupportedProtocol::MQTTOverWebSocketsWithTLS => "https/web-mqtt".to_string(),
            SupportedProtocol::STOMPOverWebsockets => "http/web-stomp".to_string(),
            SupportedProtocol::STOMPOverWebsocketsWithTLS => "https/web-stomp".to_string(),
            SupportedProtocol::Prometheus => "http/prometheus".to_string(),
            SupportedProtocol::PrometheusWithTLS => "https/prometheus".to_string(),
            SupportedProtocol::HTTP => "http".to_string(),
            SupportedProtocol::HTTPWithTLS => "https".to_string(),
            SupportedProtocol::Other(s) => s.clone(),
        }
    }
}

/// Decoding the wire name of a known protocol gives that value back.
pub proof fn lemma_protocol_known_round_trip(v: SupportedProtocol)
    requires
        v !is Other,
    ensures
        SupportedProtocol::decodes_to(v.wire(), v),
{
    reveal_strlit("clustering");
    reveal_strlit("amqp");
    reveal_strlit("amqps");
    reveal_strlit("stream");
    reveal_strlit("stream/ssl");
    reveal_strlit("mqtt");
    reveal_strlit("mqtt/ssl");
    reveal_strlit("stomp");
    reveal_strlit("stomp/ssl");
    reveal_strlit("http/web-mqtt");
    reveal_strlit("https/web-mqtt");
    reveal_strlit("http/web-stomp");
    reveal_strlit("https/web-stomp");
    reveal_strlit("http/prometheus");
    reveal_strlit("https/prometheus");
    reveal_strlit("http");
    reveal_strlit("https");
    assert("clustering"@[0] != "amqp"@[0]);
    assert("clustering"@[0] != "amqps"@[0]);
    assert("clustering"@[0] != "stream"@[0]);
    assert("clustering"@[0] != "stream/ssl"@[0]);
    assert("clustering"@[0] != "mqtt"@[0]);
    assert("clustering"@[0] != "mqtt/ssl"@[0]);
    assert("clustering"@[0] != "stomp"@[0]);
    assert("clustering"@[0] != "stomp/ssl"@[0]);
    assert("clustering"@[0] != "http/web-mqtt"@[0]);
    assert("clustering"@[0] != "https/web-mqtt"@[0]);
    assert("clustering"@[0] != "http/web-stomp"@[0]);
    assert("clustering"@[0] != "https/web-stomp"@[0]);
    assert("clustering"@[0] != "http/prometheus"@[0]);
    assert("clustering"@[0] != "https/prometheus"@[0]);
    assert("clustering"@[0] != "http"@[0]);
    assert("clustering"@[0] != "https"@[0]);
    assert("amqp"@.len() != "amqps"@.len());
    assert("amqp"@[0] != "stream"@[0]);
    assert("amqp"@[0] != "stream/ssl"@[0]);
    assert("amqp"@[0] != "mqtt"@[0]);
    assert("amqp"@[0] != "mqtt/ssl"@[0]);
    assert("amqp"@[0] != "stomp"@[0]);
    assert("amqp"@[0] != "stomp/ssl"@[0]);
    assert("amqp"@[0] != "http/web-mqtt"@[0]);
    assert("amqp"@[0] != "https/web-mqtt"@[0]);
    assert("amqp"@[0] != "http/web-stomp"@[0]);
    assert("amqp"@[0] != "https/web-stomp"@[0]);
    assert("amqp"@[0] != "http/prometheus"@[0]);
    assert("amqp"@[0] != "https/prometheus"@[0]);
    assert("amqp"@[0] != "http"@[0]);
    assert("amqp"@[0] != "https"@[0]);
    assert("amqps"@[0] != "stream"@[0]);
    assert("amqps"@[0] != "stream/ssl"@[0]);
    assert("amqps"@[0] != "mqtt"@[0]);
    assert("amqps"@[0] != "mqtt/ssl"@[0]);
    assert("amqps"@[0] != "stomp"@[0]);
    assert("amqps"@[0] != "stomp/ssl"@[0]);
    assert("amqps"@[0] != "http/web-mqtt"@[0]);
    assert("amqps"@[0] != "https/web-mqtt"@[0]);
    assert("amqps"@[0] != "http/web-stomp"@[0]);
    assert("amqps"@[0] != "https/web-stomp"@[0]);
    assert("amqps"@[0] != "http/prometheus"@[0]);
    assert("amqps"@[0] != "https/prometheus"@[0]);
    assert("amqps"@[0] != "http"@[0]);
    assert("amqps"@[0] != "https"@[0]);
    assert("stream"@.len() != "stream/ssl"@.len());
    assert("stream"@[0] != "mqtt"@[0]);
    assert("stream"@[0] != "mqtt/ssl"@[0]);
    assert("stream"@[2] != "stomp"@[2]);
    assert("stream"@[2] != "stomp/ssl"@[2]);
    assert("stream"@[0] != "http/web-mqtt"@[0]);
    assert("stream"@[0] != "https/web-mqtt"@[0]);
    assert("stream"@[0] != "http/web-stomp"@[0]);
    assert("stream"@[0] != "https/web-stomp"@[0]);
    assert("stream"@[0] != "http/prometheus"@[0]);
    assert("stream"@[0] != "https/prometheus"@[0]);
    assert("stream"@[0] != "http"@[0]);
    assert("stream"@[0] != "https"@[0]);
    assert("stream/ssl"@[0] != "mqtt"@[0]);
    assert("stream/ssl"@[0] != "mqtt/ssl"@[0]);
    assert("stream/ssl"@[2] != "stomp"@[2]);
    assert("stream/ssl"@[2] != "stomp/ssl"@[2]);
    assert("stream/ssl"@[0] != "http/web-mqtt"@[0]);
    assert("stream/ssl"@[0] != "https/web-mqtt"@[0]);
    assert("stream/ssl"@[0] != "http/web-stomp"@[0]);
    assert("stream/ssl"@[0] != "https/web-stomp"@[0]);
    assert("stream/ssl"@[0] != "http/prometheus"@[0]);
    assert("stream/ssl"@[0] != "https/prometheus"@[0]);
    assert("stream/ssl"@[0] != "http"@[0]);
    assert("stream/ssl"@[0] != "https"@[0]);
    assert("mqtt"@.len() != "mqtt/ssl"@.len());
    assert("mqtt"@[0] != "stomp"@[0]);
    assert("mqtt"@[0] != "stomp/ssl"@[0]);
    assert("mqtt"@[0] != "http/web-mqtt"@[0]);
    assert("mqtt"@[0] != "https/web-mqtt"@[0]);
    assert("mqtt"@[0] != "http/web-stomp"@[0]);
    assert("mqtt"@[0] != "https/web-stomp"@[0]);
    assert("mqtt"@[0] != "http/prometheus"@[0]);
    assert("mqtt"@[0] != "https/prometheus"@[0]);
    assert("mqtt"@[0] != "http"@[0]);
    assert("mqtt"@[0] != "https"@[0]);
    assert("mqtt/ssl"@[0] != "stomp"@[0]);
    assert("mqtt/ssl"@[0] != "stomp/ssl"@[0]);
    assert("mqtt/ssl"@[0] != "http/web-mqtt"@[0]);
    assert("mqtt/ssl"@[0] != "https/web-mqtt"@[0]);
    assert("mqtt/ssl"@[0] != "http/web-stomp"@[0]);
    assert("mqtt/ssl"@[0] != "https/web-stomp"@[0]);
    assert("mqtt/ssl"@[0] != "http/prometheus"@[0]);
    assert("mqtt/ssl"@[0] != "https/prometheus"@[0]);
    assert("mqtt/ssl"@[0] != "http"@[0]);
    assert("mqtt/ssl"@[0] != "https"@[0]);
    assert("stomp"@.len() != "stomp/ssl"@.len());
    assert("stomp"@[0] != "http/web-mqtt"@[0]);
    assert("stomp"@[0] != "https/web-mqtt"@[0]);
    assert("stomp"@[0] != "http/web-stomp"@[0]);
    assert("stomp"@[0] != "https/web-stomp"@[0]);
    assert("stomp"@[0] != "http/prometheus"@[0]);
    assert("stomp"@[0] != "https/prometheus"@[0]);
    assert("stomp"@[0] != "http"@[0]);
    assert("stomp"@[0] != "https"@[0]);
    assert("stomp/ssl"@[0] != "http/web-mqtt"@[0]);
    assert("stomp/ssl"@[0] != "https/web-mqtt"@[0]);
    assert("stomp/ssl"@[0] != "http/web-stomp"@[0]);
    assert("stomp/ssl"@[0] != "https/web-stomp"@[0]);
    assert("stomp/ssl"@[0] != "http/prometheus"@[0]);
    assert("stomp/ssl"@[0] != "https/prometheus"@[0]);
    assert("stomp/ssl"@[0] != "http"@[0]);
    assert("stomp/ssl"@[0] != "https"@[0]);
    assert("http/web-mqtt"@[4] != "https/web-mqtt"@[4]);
    assert("http/web-mqtt"@[9] != "http/web-stomp"@[9]);
    assert("http/web-mqtt"@[4] != "https/web-stomp"@[4]);
    assert("http/web-mqtt"@[5] != "http/prometheus"@[5]);
    assert("http/web-mqtt"@[4] != "https/prometheus"@[4]);
    assert("http/web-mqtt"@.len() != "http"@.len());
    assert("http/web-mqtt"@[4] != "https"@[4]);
    assert("https/web-mqtt"@[4] != "http/web-stomp"@[4]);
    assert("https/web-mqtt"@[10] != "https/web-stomp"@[10]);
    assert("https/web-mqtt"@[4] != "http/prometheus"@[4]);
    assert("https/web-mqtt"@[6] != "https/prometheus"@[6]);
    assert("https/web-mqtt"@.len() != "http"@.len());
    assert("https/web-mqtt"@.len() != "https"@.len());
    assert("http/web-stomp"@[4] != "https/web-stomp"@[4]);
    assert("http/web-stomp"@[5] != "http/prometheus"@[5]);
    assert("http/web-stomp"@[4] != "https/prometheus"@[4]);
    assert("http/web-stomp"@.len() != "http"@.len());
    assert("http/web-stomp"@[4] != "https"@[4]);
    assert("https/web-stomp"@[4] != "http/prometheus"@[4]);
    assert("https/web-stomp"@[6] != "https/prometheus"@[6]);
    assert("https/web-stomp"@.len() != "http"@.len());
    assert("https/web-stomp"@.len() != "https"@.len());
    assert("http/prometheus"@[4] != "https/prometheus"@[4]);
    assert("http/prometheus"@.len() != "http"@.len());
    assert("http/prometheus"@[4] != "https"@[4]);
    assert("https/prometheus"@.len() != "http"@.len());
    assert("https/prometheus"@.len() != "https"@.len());
    assert("http"@.len() != "https"@.len());
}

/// A name outside the known set decodes to `Other` holding that name, and encoding
/// the result gives the name back.
pub proof fn lemma_protocol_extension_round_trip(s: Seq<char>, v: SupportedProtocol)
    requires
        SupportedProtocol::known(s) is None,
        SupportedProtocol::decodes_to(s, v),
    ensures
        v is Other,
        v.wire() == s,
{
}

/// Exchange types. Most variants are the types that ship with the broker; a type
/// that a third-party plugin provides decodes to `Plugin`, which keeps its name.
#[derive(Debug, Clone, PartialEq, Eq)]
pub enum ExchangeType {
    /// Fanout exchange
    Fanout,
    /// Topic exchange
    Topic,
    /// Direct exchange
    Direct,
    /// Headers exchange
    Headers,
    /// Consistent hashing exchange
    ConsistentHashing,
    /// Modulus hash exchange, from the sharding plugin
    ModulusHash,
    /// Random exchange
    Random,
    /// Local random exchange
    LocalRandom,
    /// JMS topic exchange
    JmsTopic,
    /// Recent history exchange
    RecentHistory,
    /// Delayed message exchange
    DelayedMessage,
    /// Message deduplication exchange
    MessageDeduplication,
    Plugin(String),
}

impl ExchangeType {
    /// The name that stands for this value on the wire.
    pub open spec fn wire(self) -> Seq<char> {
        match self {
            ExchangeType::Fanout => "fanout"@,
            ExchangeType::Topic => "topic"@,
            ExchangeType::Direct => "direct"@,
            ExchangeType::Headers => "headers"@,
            ExchangeType::ConsistentHashing => "x-consistent-hash"@,
            ExchangeType::ModulusHash => "x-modulus-hash"@,
            ExchangeType::Random => "x-random"@,
            ExchangeType::LocalRandom => "x-local-random"@,
            ExchangeType::JmsTopic => "x-jms-topic"@,
            ExchangeType::RecentHistory => "x-recent-history"@,
            ExchangeType::DelayedMessage => "x-delayed-message"@,
            ExchangeType::MessageDeduplication => "x-message-deduplication"@,
            ExchangeType::Plugin(s) => s@,
        }
    }

    /// The known variant that `s` names, if any.
    pub open spec fn known(s: Seq<char>) -> Option<ExchangeType> {
        if s == "fanout"@ {
            Some(ExchangeType::Fanout)
        } else if s == "topic"@ {
            Some(ExchangeType::Topic)
        } else if s == "direct"@ {
            Some(ExchangeType::Direct)
        } else if s == "headers"@ {
            Some(ExchangeType::Headers)
        } else if s == "x-consistent-hash"@ {
            Some(ExchangeType::ConsistentHashing)
        } else if s == "x-modulus-hash"@ {
            Some(ExchangeType::ModulusHash)
        } else if s == "x-random"@ {
            Some(ExchangeType::Random)
        } else if s == "x-local-random"@ {
            Some(ExchangeType::LocalRandom)
        } else if s == "x-jms-topic"@ {
            Some(ExchangeType::JmsTopic)
        } else if s == "x-recent-history"@ {
            Some(ExchangeType::RecentHistory)
        } else if s == "x-delayed-message"@ {
            Some(ExchangeType::DelayedMessage)
        } else if s == "x-message-deduplication"@ {
            Some(ExchangeType::MessageDeduplication)
        } else {
            None
        }
    }

    /// `v` is what `s` decodes to: its known variant, else `Plugin` holding `s`.
    pub open spec fn decodes_to(s: Seq<char>, v: ExchangeType) -> bool {
        match ExchangeType::known(s) {
            Some(k) => v == k,
            None => v is Plugin && v->0@ == s,
        }
    }

    /// Decodes a wire name; never fails.
    pub fn from(value: &str) -> (r: ExchangeType)
        ensures
            ExchangeType::decodes_to(value@, r),
    {
        if str_eq(value, "fanout") {
            ExchangeType::Fanout
        } else if str_eq(value, "topic") {
            ExchangeType::Topic
        } else if str_eq(value, "direct") {
            ExchangeType::Direct
        } else if str_eq(value, "headers") {
            ExchangeType::Headers
        } else if str_eq(value, "x-consistent-hash") {
            ExchangeType::ConsistentHashing
        } else if str_eq(value, "x-modulus-hash") {
            ExchangeType::ModulusHash
        } else if str_eq(value, "x-random") {
            ExchangeType::Random
        } else if str_eq(value, "x-local-random") {
            ExchangeType::LocalRandom
        } else if str_eq(value, "x-jms-topic") {
            ExchangeType::JmsTopic
        } else if str_eq(value, "x-recent-history") {
            ExchangeType::RecentHistory
        } else if str_eq(value, "x-delayed-message") {
            ExchangeType::DelayedMessage
        } else if str_eq(value, "x-message-deduplication") {
            ExchangeType::MessageDeduplication
        } else {
            ExchangeType::Plugin(value.to_string())
        }
    }

    /// Encodes this value as its wire name.
    pub fn to_wire(&self) -> (r: String)
        ensures
            r@ == self.wire(),
    {
        match self {
            ExchangeType::Fanout => "fanout".to_string(),
            ExchangeType::Topic => "topic".to_string(),
            ExchangeType::Direct => "direct".to_string(),
            ExchangeType::Headers => "headers".to_string(),
            ExchangeType::ConsistentHashing => "x-consistent-hash".to_string(),
            ExchangeType::ModulusHash => "x-modulus-hash".to_string(),
            ExchangeType::Random => "x-random".to_string(),
            ExchangeType::LocalRandom => "x-local-random".to_string(),
            ExchangeType::JmsTopic => "x-jms-topic".to_string(),
            ExchangeType::RecentHistory => "x-recent-history".to_string(),
            ExchangeType::DelayedMessage => "x-delayed-message".to_string(),
            ExchangeType::MessageDeduplication => "x-message-deduplication".to_string(),
            ExchangeType::Plugin(s) => s.clone(),
        }
    }
}

/// Decoding the wire name of a known exchange type gives that value back.
pub proof fn lemma_exchange_type_known_round_trip(v: ExchangeType)
    requires
        v !is Plugin,
    ensures
        ExchangeType::decodes_to(v.wire(), v),
{
    reveal_strlit("fanout");
    reveal_strlit("topic");
    reveal_strlit("direct");
    reveal_strlit("headers");
    reveal_strlit("x-consistent-hash");
    reveal_strlit("x-modulus-hash");
    reveal_strlit("x-random");
    reveal_strlit("x-local-random");
    reveal_strlit("x-jms-topic");
    reveal_strlit("x-recent-history");
    reveal_strlit("x-delayed-message");
    reveal_strlit("x-message-deduplication");
    assert("fanout"@[0] != "topic"@[0]);
    assert("fanout"@[0] != "direct"@[0]);
    assert("fanout"@[0] != "headers"@[0]);
    assert("fanout"@[0] != "x-consistent-hash"@[0]);
    assert("fanout"@[0] != "x-modulus-hash"@[0]);
    assert("fanout"@[0] != "x-random"@[0]);
    assert("fanout"@[0] != "x-local-random"@[0]);
    assert("fanout"@[0] != "x-jms-topic"@[0]);
    assert("fanout"@[0] != "x-recent-history"@[0]);
    assert("fanout"@[0] != "x-delayed-message"@[0]);
    assert("fanout"@[0] != "x-message-deduplication"@[0]);
    assert("topic"@[0] != "direct"@[0]);
    assert("topic"@[0] != "headers"@[0]);
    assert("topic"@[0] != "x-consistent-hash"@[0]);
    assert("topic"@[0] != "x-modulus-hash"@[0]);
    assert("topic"@[0] != "x-random"@[0]);
    assert("topic"@[0] != "x-local-random"@[0]);
    assert("topic"@[0] != "x-jms-topic"@[0]);
    assert("topic"@[0] != "x-recent-history"@[0]);
    assert("topic"@[0] != "x-delayed-message"@[0]);
    assert("topic"@[0] != "x-message-deduplication"@[0]);
    assert("direct"@[0] != "headers"@[0]);
    assert("direct"@[0] != "x-consistent-hash"@[0]);
    assert("direct"@[0] != "x-modulus-hash"@[0]);
    assert("direct"@[0] != "x-random"@[0]);
    assert("direct"@[0] != "x-local-random"@[0]);
    assert("direct"@[0] != "x-jms-topic"@[0]);
    assert("direct"@[0] != "x-recent-history"@[0]);
    assert("direct"@[0] != "x-delayed-message"@[0]);
    assert("direct"@[0] != "x-message-deduplication"@[0]);
    assert("headers"@[0] != "x-consistent-hash"@[0]);
    assert("headers"@[0] != "x-modulus-hash"@[0]);
    assert("headers"@[0] != "x-random"@[0]);
    assert("headers"@[0] != "x-local-random"@[0]);
    assert("headers"@[0] != "x-jms-topic"@[0]);
    assert("headers"@[0] != "x-recent-history"@[0]);
    assert("headers"@[0] != "x-delayed-message"@[0]);
    assert("headers"@[0] != "x-message-deduplication"@[0]);
    assert("x-consistent-hash"@[2] != "x-modulus-hash"@[2]);
    assert("x-consistent-hash"@[2] != "x-random"@[2]);
    assert("x-consistent-hash"@[2] != "x-local-random"@[2]);
    assert("x-consistent-hash"@[2] != "x-jms-topic"@[2]);
    assert("x-consistent-hash"@[2] != "x-recent-history"@[2]);
    assert("x-consistent-hash"@[2] != "x-delayed-message"@[2]);
    assert("x-consistent-hash"@[2] != "x-message-deduplication"@[2]);
    assert("x-modulus-hash"@[2] != "x-random"@[2]);
    assert("x-modulus-hash"@[2] != "x-local-random"@[2]);
    assert("x-modulus-hash"@[2] != "x-jms-topic"@[2]);
    assert("x-modulus-hash"@[2] != "x-recent-history"@[2]);
    assert("x-modulus-hash"@[2] != "x-delayed-message"@[2]);
    assert("x-modulus-hash"@[3] != "x-message-deduplication"@[3]);
    assert("x-random"@[2] != "x-local-random"@[2]);
    assert("x-random"@[2] != "x-jms-topic"@[2]);
    assert("x-random"@[3] != "x-recent-history"@[3]);
    assert("x-random"@[2] != "x-delayed-message"@[2]);
    assert("x-random"@[2] != "x-message-deduplication"@[2]);
    assert("x-local-random"@[2] != "x-jms-topic"@[2]);
    assert("x-local-random"@[2] != "x-recent-history"@[2]);
    assert("x-local-random"@[2] != "x-delayed-message"@[2]);
    assert("x-local-random"@[2] != "x-message-deduplication"@[2]);
    assert("x-jms-topic"@[2] != "x-recent-history"@[2]);
    assert("x-jms-topic"@[2] != "x-delayed-message"@[2]);
    assert("x-jms-topic"@[2] != "x-message-deduplication"@[2]);
    assert("x-recent-history"@[2] != "x-delayed-message"@[2]);
    assert("x-recent-history"@[2] != "x-message-deduplication"@[2]);
    assert("x-delayed-message"@[2] != "x-message-deduplication"@[2]);
}

/// A name outside the known set decodes to `Plugin` holding that name, and encoding
/// the result gives the name back.
pub proof fn lemma_exchange_type_extension_round_trip(s: Seq<char>, v: ExchangeType)
    requires
        ExchangeType::known(s) is None,
        ExchangeType::decodes_to(s, v),
    ensures
        v is Plugin,
        v.wire() == s,
{
}

/// Kind of a queue. The set is closed: an unknown name decodes to `Classic`.
#[derive(Debug, Clone, Copy, PartialEq, Eq, Structural)]
pub enum QueueType {
    Classic,
    Quorum,
    Stream,
}

impl QueueType {
    /// The name that stands for this value on the wire.
    pub open spec fn wire(self) -> Seq<char> {
        match self {
            QueueType::Classic => "classic"@,
            QueueType::Quorum => "quorum"@,
            QueueType::Stream => "stream"@,
        }
    }

    /// Whether `s` is the wire name of some variant.
    pub open spec fn is_known(s: Seq<char>) -> bool {
        s == "classic"@
        || s == "quorum"@
        || s == "stream"@
    }

    /// What `s` decodes to: the variant it names, else `Classic`.
    pub open spec fn spec_from(s: Seq<char>) -> QueueType {
        if s == "quorum"@ {
            QueueType::Quorum
        } else if s == "stream"@ {
            QueueType::Stream
        } else {
            QueueType::Classic
        }
    }

    /// Decodes a wire name; never fails.
    pub fn from(value: &str) -> (r: QueueType)
        ensures
            r == QueueType::spec_from(value@),
    {
        if str_eq(value, "quorum") {
            QueueType::Quorum
        } else if str_eq(value, "stream") {
            QueueType::Stream
        } else {
            QueueType::Classic
        }
    }

    /// Encodes this value as its wire name.
    pub fn to_wire(&self) -> (r: String)
        ensures
            r@ == self.wire(),
    {
        match self {
            QueueType::Classic => "classic".to_string(),
            QueueType::Quorum => "quorum".to_string(),
            QueueType::Stream => "stream".to_string(),
        }
    }
}

/// Decoding the wire name of a queue type gives that value back.
pub proof fn lemma_queue_type_round_trip(v: QueueType)
    ensures
        QueueType::spec_from(v.wire()) == v,
{
    reveal_strlit("classic");
    reveal_strlit("quorum");
    reveal_strlit("stream");
    assert("classic"@[0] != "quorum"@[0]);
    assert("classic"@[0] != "stream"@[0]);
    assert("quorum"@[0] != "stream"@[0]);
}

/// A name outside the known set decodes to `Classic`.
pub proof fn lemma_queue_type_unknown_default(s: Seq<char>)
    requires
        !QueueType::is_known(s),
    ensures
        QueueType::spec_from(s) == QueueType::Classic,
{
}

/// A binding's destination: a queue, or another exchange (an exchange-to-exchange
/// binding). An unknown name decodes to `Queue`.
#[derive(Debug, Clone, Copy, PartialEq, Eq, Structural)]
pub enum BindingDestinationType {
    Queue,
    Exchange,
}

impl BindingDestinationType {
    /// The name that stands for this value on the wire.
    pub open spec fn wire(self) -> Seq<char> {
        match self {
            BindingDestinationType::Queue => "queue"@,
            BindingDestinationType::Exchange => "exchange"@,
        }
    }

    /// Whether `s` is the wire name of some variant.
    pub open spec fn is_known(s: Seq<char>) -> bool {
        s == "queue"@
        || s == "exchange"@
    }

    /// What `s` decodes to: the variant it names, else `Queue`.
    pub open spec fn spec_from(s: Seq<char>) -> BindingDestinationType {
        if s == "exchange"@ {
            BindingDestinationType::Exchange
        } else {
            BindingDestinationType::Queue
        }
    }

    /// Decodes a wire name; never fails.
    pub fn from(value: &str) -> (r: BindingDestinationType)
        ensures
            r == BindingDestinationType::spec_from(value@),
    {
        if str_eq(value, "exchange") {
            BindingDestinationType::Exchange
        } else {
            BindingDestinationType::Queue
        }
    }

    /// Encodes this value as its wire name.
    pub fn to_wire(&self) -> (r: String)
        ensures
            r@ == self.wire(),
    {
        match self {
            BindingDestinationType::Queue => "queue".to_string(),
            BindingDestinationType::Exchange => "exchange".to_string(),
        }
    }
}

/// Decoding the wire name of a binding destination gives that value back.
pub proof fn lemma_binding_destination_round_trip(v: BindingDestinationType)
    ensures
        BindingDestinationType::spec_from(v.wire()) == v,
{
    reveal_strlit("queue");
    reveal_strlit("exchange");
    assert("queue"@[0] != "exchange"@[0]);
}

/// A name outside the known set decodes to `Queue`.
pub proof fn lemma_binding_destination_unknown_default(s: Seq<char>)
    requires
        !BindingDestinationType::is_known(s),
    ensures
        BindingDestinationType::spec_from(s) == BindingDestinationType::Queue,
{
}

/// The kind of object a policy applies to. An unknown name decodes to `Queues`.
#[derive(Debug, Clone, Copy, PartialEq, Eq, Structural)]
pub enum PolicyTarget {
    Queues,
    ClassicQueues,
    QuorumQueues,
    Streams,
    Exchanges,
    All,
}

impl PolicyTarget {
    /// The name that stands for this value on the wire.
    pub open spec fn wire(self) -> Seq<char> {
        match self {
            PolicyTarget::Queues => "queues"@,
            PolicyTarget::ClassicQueues => "classic_queues"@,
            PolicyTarget::QuorumQueues => "quorum_queues"@,
            PolicyTarget::Streams => "streams"@,
            PolicyTarget::Exchanges => "exchanges"@,
            PolicyTarget::All => "all"@,
        }
    }

    /// Whether `s` is the wire name of some variant.
    pub open spec fn is_known(s: Seq<char>) -> bool {
        s == "queues"@
        || s == "classic_queues"@
        || s == "quorum_queues"@
        || s == "streams"@
        || s == "exchanges"@
        || s == "all"@
    }

    /// What `s` decodes to: the variant it names, else `Queues`.
    pub open spec fn spec_from(s: Seq<char>) -> PolicyTarget {
        if s == "classic_queues"@ {
            PolicyTarget::ClassicQueues
        } else if s == "quorum_queues"@ {
            PolicyTarget::QuorumQueues
        } else if s == "streams"@ {
            PolicyTarget::Streams
        } else if s == "exchanges"@ {
            PolicyTarget::Exchanges
        } else if s == "all"@ {
            PolicyTarget::All
        } else {
            PolicyTarget::Queues
        }
    }

    /// Decodes a wire name; never fails.
    pub fn from(value: &str) -> (r: PolicyTarget)
        ensures
            r == PolicyTarget::spec_from(value@),
    {
        if str_eq(value, "classic_queues") {
            PolicyTarget::ClassicQueues
        } else if str_eq(value, "quorum_queues") {
            PolicyTarget::QuorumQueues
        } else if str_eq(value, "streams") {
            PolicyTarget::Streams
        } else if str_eq(value, "exchanges") {
            PolicyTarget::Exchanges
        } else if str_eq(value, "all") {
            PolicyTarget::All
        } else {
            PolicyTarget::Queues
        }
    }

    /// Encodes this value as its wire name.
    pub fn to_wire(&self) -> (r: String)
        ensures
            r@ == self.wire(),
    {
        match self {
            PolicyTarget::Queues => "queues".to_string(),
            PolicyTarget::ClassicQueues => "classic_queues".to_string(),
            PolicyTarget::QuorumQueues => "quorum_queues".to_string(),
            PolicyTarget::Streams => "streams".to_string(),
            PolicyTarget::Exchanges => "exchanges".to_string(),
            PolicyTarget::All => "all".to_string(),
        }
    }
}

/// Decoding the wire name of a policy target gives that value back.
pub proof fn lemma_policy_target_round_trip(v: PolicyTarget)
    ensures
        PolicyTarget::spec_from(v.wire()) == v,
{
    reveal_strlit("queues");
    reveal_strlit("classic_queues");
    reveal_strlit("quorum_queues");
    reveal_strlit("streams");
    reveal_strlit("exchanges");
    reveal_strlit("all");
    assert("queues"@[0] != "classic_queues"@[0]);
    assert("queues"@[2] != "quorum_queues"@[2]);
    assert("queues"@[0] != "streams"@[0]);
    assert("queues"@[0] != "exchanges"@[0]);
    assert("queues"@[0] != "all"@[0]);
    assert("classic_queues"@[0] != "quorum_queues"@[0]);
    assert("classic_queues"@[0] != "streams"@[0]);
    assert("classic_queues"@[0] != "exchanges"@[0]);
    assert("classic_queues"@[0] != "all"@[0]);
    assert("quorum_queues"@[0] != "streams"@[0]);
    assert("quorum_queues"@[0] != "exchanges"@[0]);
    assert("quorum_queues"@[0] != "all"@[0]);
    assert("streams"@[0] != "exchanges"@[0]);
    assert("streams"@[0] != "all"@[0]);
    assert("exchanges"@[0] != "all"@[0]);
}

/// A name outside the known set decodes to `Queues`.
pub proof fn lemma_policy_target_unknown_default(s: Seq<char>)
    requires
        !PolicyTarget::is_known(s),
    ensures
        PolicyTarget::spec_from(s) == PolicyTarget::Queues,
{
}

/// A resource limit of a virtual host. An unknown name decodes to `MaxConnections`.
#[derive(Debug, Clone, Copy, PartialEq, Eq, Structural)]
pub enum VirtualHostLimitTarget {
    MaxConnections,
    MaxQueues,
}

impl VirtualHostLimitTarget {
    /// The name that stands for this value on the wire.
    pub open spec fn wire(self) -> Seq<char> {
        match self {
            VirtualHostLimitTarget::MaxConnections => "max-connections"@,
            VirtualHostLimitTarget::MaxQueues => "max-queues"@,
        }
    }

    /// Whether `s` is the wire name of some variant.
    pub open spec fn is_known(s: Seq<char>) -> bool {
        s == "max-connections"@
        || s == "max-queues"@
    }

    /// What `s` decodes to: the variant it names, else `MaxConnections`.
    pub open spec fn spec_from(s: Seq<char>) -> VirtualHostLimitTarget {
        if s == "max-queues"@ {
            VirtualHostLimitTarget::MaxQueues
        } else {
            VirtualHostLimitTarget::MaxConnections
        }
    }

    /// Decodes a wire name; never fails.
    pub fn from(value: &str) -> (r: VirtualHostLimitTarget)
        ensures
            r == VirtualHostLimitTarget::spec_from(value@),
    {
        if str_eq(value, "max-queues") {
            VirtualHostLimitTarget::MaxQueues
        } else {
            VirtualHostLimitTarget::MaxConnections
        }
    }

    /// Encodes this value as its wire name.
    pub fn to_wire(&self) -> (r: String)
        ensures
            r@ == self.wire(),
    {
        match self {
            VirtualHostLimitTarget::MaxConnections => "max-connections".to_string(),
            VirtualHostLimitTarget::MaxQueues => "max-queues".to_string(),
        }
    }
}

/// Decoding the wire name of a vhost limit gives that value back.
pub proof fn lemma_vhost_limit_round_trip(v: VirtualHostLimitTarget)
    ensures
        VirtualHostLimitTarget::spec_from(v.wire()) == v,
{
    reveal_strlit("max-connections");
    reveal_strlit("max-queues");
    assert("max-connections"@[4] != "max-queues"@[4]);
}

/// A name outside the known set decodes to `MaxConnections`.
pub proof fn lemma_vhost_limit_unknown_default(s: Seq<char>)
    requires
        !VirtualHostLimitTarget::is_known(s),
    ensures
        VirtualHostLimitTarget::spec_from(s) == VirtualHostLimitTarget::MaxConnections,
{
}

/// A resource limit of a user. An unknown name decodes to `MaxConnections`.
#[derive(Debug, Clone, Copy, PartialEq, Eq, Structural)]
pub enum UserLimitTarget {
    MaxConnections,
    MaxChannels,
}

impl UserLimitTarget {
    /// The name that stands for this value on the wire.
    pub open spec fn wire(self) -> Seq<char> {
        match self {
            UserLimitTarget::MaxConnections => "max-connections"@,
            UserLimitTarget::MaxChannels => "max-channels"@,
        }
    }

    /// Whether `s` is the wire name of some variant.
    pub open spec fn is_known(s: Seq<char>) -> bool {
        s == "max-connections"@
        || s == "max-channels"@
    }

    /// What `s` decodes to: the variant it names, else `MaxConnections`.
    pub open spec fn spec_from(s: Seq<char>) -> UserLimitTarget {
        if s == "max-channels"@ {
            UserLimitTarget::MaxChannels
        } else {
            UserLimitTarget::MaxConnections
        }
    }

    /// Decodes a wire name; never fails.
    pub fn from(value: &str) -> (r: UserLimitTarget)
        ensures
            r == UserLimitTarget::spec_from(value@),
    {
        if str_eq(value, "max-channels") {
            UserLimitTarget::MaxChannels
        } else {
            UserLimitTarget::MaxConnections
        }
    }

    /// Encodes this value as its wire name.
    pub fn to_wire(&self) -> (r: String)
        ensures
            r@ == self.wire(),
    {
        match self {
            UserLimitTarget::MaxConnections => "max-connections".to_string(),
            UserLimitTarget::MaxChannels => "max-channels".to_string(),
        }
    }
}

/// Decoding the wire name of a user limit gives that value back.
pub proof fn lemma_user_limit_round_trip(v: UserLimitTarget)
    ensures
        UserLimitTarget::spec_from(v.wire()) == v,
{
    reveal_strlit("max-connections");
    reveal_strlit("max-channels");
    assert("max-connections"@[5] != "max-channels"@[5]);
}

/// A name outside the known set decodes to `MaxConnections`.
pub proof fn lemma_user_limit_unknown_default(s: Seq<char>)
    requires
        !UserLimitTarget::is_known(s),
    ensures
        UserLimitTarget::spec_from(s) == UserLimitTarget::MaxConnections,
{
}

impl BindingDestinationType {
    /// The abbreviation of this destination kind in API paths.
    pub fn path_appreviation(&self) -> (r: String)
        ensures
            r@ == (match self {
                BindingDestinationType::Queue => "q"@,
                BindingDestinationType::Exchange => "e"@,
            }),
    {
        match self {
            BindingDestinationType::Queue => "q".to_string(),
            BindingDestinationType::Exchange => "e".to_string(),
        }
    }
}

impl VirtualHostLimitTarget {
    /// The wire name of this limit, borrowed.
    pub fn as_ref(&self) -> (r: &'static str)
        ensures
            r@ == self.wire(),
    {
        match self {
            VirtualHostLimitTarget::MaxConnections => "max-connections",
            VirtualHostLimitTarget::MaxQueues => "max-queues",
        }
    }
}

impl UserLimitTarget {
    /// The wire name of this limit, borrowed.
    pub fn as_ref(&self) -> (r: &'static str)
        ensures
            r@ == self.wire(),
    {
        match self {
            UserLimitTarget::MaxConnections => "max-connections",
            UserLimitTarget::MaxChannels => "max-channels",
        }
    }
}

} // verus!
