use vstd::prelude::*;

use crate::commons::{
    lemma_binding_destination_round_trip, lemma_policy_target_round_trip, BindingDestinationType,
    PolicyTarget,
};
use crate::fields::{
    absent_at, bool_at, int_at, int_value, list_at, missing, num_or_zero, obj_at, obj_or_seq,
    opt_obj, opt_str, opt_strs, req_bool, req_i16, req_obj, req_str, req_strs, req_uint, str_at,
    str_or, u32_or_text, u32_or_text_at, uint_at, uint_or_zero,
};
use crate::json::{lemma_holds_strings_unique, DecodeError, JsonList, JsonMap, JsonNumber, JsonValue};
use crate::records::{
    accepts_list, decode_list, encode_list, lemma_reads_list_unique, opt_record_at, reads_list,
    record_at, records_at, same_seq, Encode, Record,
};

verus! {

/// The elements of a list joined with `, `.
pub open spec fn joined(xs: Seq<String>) -> Seq<char>
    decreases xs.len(),
{
    if xs.len() == 0 {
        Seq::empty()
    } else if xs.len() == 1 {
        xs[0]@
    } else {
        joined(xs.drop_last()) + ", "@ + xs.last()@
    }
}

/// A list written as `[a, b, c]`.
pub open spec fn bracketed(xs: Seq<String>) -> Seq<char> {
    "["@ + joined(xs) + "]"@
}

fn list_text(xs: &Vec<String>) -> (r: String)
    ensures
        r@ == bracketed(xs@),
{
    let mut r = "[".to_string();
    let mut i: usize = 0;
    while i < xs.len()
        invariant
            i <= xs@.len(),
            r@ == "["@ + joined(xs@.subrange(0, i as int)),
        decreases xs@.len() - i,
    {
        let ghost before = xs@.subrange(0, i as int);
        let ghost after = xs@.subrange(0, i + 1);
        assert(after.drop_last() =~= before);
        if i > 0 {
            r.append(", ");
        }
        r.append(xs[i].as_str());
        proof {
            if i == 0 {
                assert(before =~= Seq::<String>::empty());
                assert(r@ =~= "["@ + joined(after));
            } else {
                assert(r@ =~= "["@ + joined(after));
            }
        }
        i = i + 1;
    }
    assert(xs@.subrange(0, xs@.len() as int) =~= xs@);
    r.append("]");
    r
}

/// A list of tags.
#[derive(Debug, Clone, PartialEq)]
pub struct TagList(pub Vec<String>);

impl TagList {
    /// The tags written as `[a, b, c]`.
    pub fn to_display_string(&self) -> (r: String)
        ensures
            r@ == bracketed(self.0@),
    {
        list_text(&self.0)
    }
}

/// A list of node names.
#[derive(Debug, Clone, PartialEq)]
pub struct NodeList(pub Vec<String>);

impl NodeList {
    /// The node names written as `[a, b, c]`.
    pub fn to_display_string(&self) -> (r: String)
        ensures
            r@ == bracketed(self.0@),
    {
        list_text(&self.0)
    }
}

/// Optional arguments of a queue, an exchange, a binding or a consumer.
#[derive(Debug, Clone, PartialEq)]
pub struct XArguments(pub JsonMap);

/// The value of a runtime parameter.
#[derive(Debug, Clone, PartialEq)]
pub struct RuntimeParameterValue(pub JsonMap);

/// The limits in effect, by name.
#[derive(Debug, Clone, PartialEq)]
pub struct EnforcedLimits(pub JsonMap);

/// The definition of a policy.
#[derive(Debug, Clone, PartialEq)]
pub struct PolicyDefinition(pub Option<JsonMap>);

/// The properties of a message.
#[derive(Debug, Clone, PartialEq)]
pub struct MessageProperties(pub JsonMap);

/// Tags of a cluster or a node.
#[derive(Debug, Clone, PartialEq)]
pub struct TagMap(pub JsonMap);

/// Messages fetched from a queue.
#[derive(Debug, Clone, PartialEq)]
pub struct MessageList(pub Vec<GetMessage>);

impl MessageList {
    /// Decodes an array of messages.
    pub fn from_json(v: &JsonValue) -> (r: Result<MessageList, DecodeError>)
        ensures
            r is Ok <==> (*v matches JsonValue::Array(l) && accepts_list::<GetMessage>(l)),
            r matches Ok(x) ==> (*v matches JsonValue::Array(l) && reads_list(x.0@, l)),
            r matches Err(e) ==> (e is NotAnObject <==> !(*v is Array)),
    {
        match v {
            JsonValue::Array(l) => match decode_list::<GetMessage>(l) {
                Some(msgs) => Ok(MessageList(msgs)),
                None => Err(DecodeError::InvalidField("messages".to_string())),
            },
            _ => Err(DecodeError::NotAnObject),
        }
    }
}

impl MessageRouted {
    /// A sentence that says whether the message was routed.
    pub fn to_display_string(&self) -> (r: String)
        ensures
            r@ == (if self.routed {
                "Message published and routed successfully"@
            } else {
                "Message published but NOT routed"@
            }),
    {
        if self.routed {
            "Message published and routed successfully".to_string()
        } else {
            "Message published but NOT routed".to_string()
        }
    }
}

/// Why a health check failed. Which kind of evidence a payload carries is told by
/// its fields: `alarms` for an alarm check, `queues` for a quorum-criticality check.
#[derive(Debug, Clone, PartialEq)]
pub enum HealthCheckFailureDetails {
    AlarmCheck(ClusterAlarmCheckDetails),
    NodeIsQuorumCritical(QuorumCriticalityCheckDetails),
}

impl Record for HealthCheckFailureDetails {
    open spec fn accepts(m: Map<Seq<char>, JsonValue>) -> bool {
        if m.contains_key("alarms"@) {
            ClusterAlarmCheckDetails::accepts(m)
        } else {
            m.contains_key("queues"@) && QuorumCriticalityCheckDetails::accepts(m)
        }
    }

    open spec fn read_from(self, m: Map<Seq<char>, JsonValue>) -> bool {
        match self {
            HealthCheckFailureDetails::AlarmCheck(d) => m.contains_key("alarms"@) && d.read_from(m),
            HealthCheckFailureDetails::NodeIsQuorumCritical(d) => !m.contains_key("alarms"@)
                && m.contains_key("queues"@) && d.read_from(m),
        }
    }

    fn from_map(m: &JsonMap) -> (r: Result<HealthCheckFailureDetails, DecodeError>) {
        if m.get("alarms").is_some() {
            let d = ClusterAlarmCheckDetails::from_map(m)?;
            Ok(HealthCheckFailureDetails::AlarmCheck(d))
        } else if m.get("queues").is_some() {
            let d = QuorumCriticalityCheckDetails::from_map(m)?;
            Ok(HealthCheckFailureDetails::NodeIsQuorumCritical(d))
        } else {
            Err(missing("queues"))
        }
    }
}

/// Metadata of a virtual host.
#[derive(Debug, Clone, PartialEq)]
pub struct VirtualHostMetadata {
    pub tags: Option<TagList>,
    pub description: Option<String>,
    pub default_queue_type: Option<String>,
}

impl Record for VirtualHostMetadata {
    open spec fn accepts(m: Map<Seq<char>, JsonValue>) -> bool {
        &&& absent_at(m, "tags"@) || (list_at(m, "tags"@) matches Some(l) && l.all_strings())
        &&& absent_at(m, "description"@) || str_at(m, "description"@) is Some
        &&& absent_at(m, "default_queue_type"@) || str_at(m, "default_queue_type"@) is Some
    }

    open spec fn read_from(self, m: Map<Seq<char>, JsonValue>) -> bool {
        &&& match self.tags { None => absent_at(m, "tags"@), Some(t) => list_at(m, "tags"@) matches Some(l) && l.holds_strings(t.0@) }
        &&& self.description == str_at(m, "description"@)
        &&& self.default_queue_type == str_at(m, "default_queue_type"@)
    }

    fn from_map(m: &JsonMap) -> (r: Result<VirtualHostMetadata, DecodeError>) {
        let tags = match opt_strs(m, "tags")? {
            Some(v) => Some(TagList(v)),
            None => None,
        };
        let description = opt_str(m, "description")?;
        let default_queue_type = opt_str(m, "default_queue_type")?;
        Ok(VirtualHostMetadata { tags, description, default_queue_type })
    }
}

impl Encode for VirtualHostMetadata {
    open spec fn same(self, other: VirtualHostMetadata) -> bool {
        &&& match (self.tags, other.tags) { (Some(a), Some(b)) => a.0@ == b.0@, (None, None) => true, _ => false }
        &&& self.description == other.description
        &&& self.default_queue_type == other.default_queue_type
    }

    fn to_map(&self) -> (r: JsonMap) {
        proof {
            reveal_strlit("tags");
            reveal_strlit("description");
            reveal_strlit("default_queue_type");
            assert("tags"@[0] != "description"@[0]);
            assert("tags"@[0] != "default_queue_type"@[0]);
            assert("description"@[2] != "default_queue_type"@[2]);
        }
        let mut m = JsonMap::new();
        match &self.tags {
            Some(t) => m.insert("tags".to_string(), JsonValue::Array(JsonList::from_strings(&t.0))),
            None => {},
        }
        match &self.description {
            Some(s) => m.insert("description".to_string(), JsonValue::String(s.clone())),
            None => {},
        }
        match &self.default_queue_type {
            Some(s) => m.insert("default_queue_type".to_string(), JsonValue::String(s.clone())),
            None => {},
        }
        m
    }

    proof fn lemma_read_unique(self, other: VirtualHostMetadata, m: Map<Seq<char>, JsonValue>) {
        match (self.tags, other.tags) {
            (Some(a), Some(b)) => lemma_holds_strings_unique(list_at(m, "tags"@)->0, a.0@, b.0@),
            _ => {},
        }
    }
}

/// A virtual host.
#[derive(Debug, Clone, PartialEq)]
pub struct VirtualHost {
    pub name: String,
    pub tags: Option<TagList>,
    pub description: Option<String>,
    pub default_queue_type: Option<String>,
    pub metadata: VirtualHostMetadata,
}

impl Record for VirtualHost {
    open spec fn accepts(m: Map<Seq<char>, JsonValue>) -> bool {
        &&& str_at(m, "name"@) is Some
        &&& absent_at(m, "tags"@) || (list_at(m, "tags"@) matches Some(l) && l.all_strings())
        &&& absent_at(m, "description"@) || str_at(m, "description"@) is Some
        &&& absent_at(m, "default_queue_type"@) || str_at(m, "default_queue_type"@) is Some
        &&& obj_at(m, "metadata"@) matches Some(o) && VirtualHostMetadata::accepts(o@)
    }

    open spec fn read_from(self, m: Map<Seq<char>, JsonValue>) -> bool {
        &&& str_at(m, "name"@) == Some(self.name)
        &&& match self.tags { None => absent_at(m, "tags"@), Some(t) => list_at(m, "tags"@) matches Some(l) && l.holds_strings(t.0@) }
        &&& self.description == str_at(m, "description"@)
        &&& self.default_queue_type == str_at(m, "default_queue_type"@)
        &&& obj_at(m, "metadata"@) matches Some(o) && self.metadata.read_from(o@)
    }

    fn from_map(m: &JsonMap) -> (r: Result<VirtualHost, DecodeError>) {
        let name = req_str(m, "name")?;
        let tags = match opt_strs(m, "tags")? {
            Some(v) => Some(TagList(v)),
            None => None,
        };
        let description = opt_str(m, "description")?;
        let default_queue_type = opt_str(m, "default_queue_type")?;
        let metadata = record_at::<VirtualHostMetadata>(m, "metadata")?;
        Ok(VirtualHost { name, tags, description, default_queue_type, metadata })
    }
}

impl Encode for VirtualHost {
    open spec fn same(self, other: VirtualHost) -> bool {
        &&& self.name == other.name
        &&& match (self.tags, other.tags) { (Some(a), Some(b)) => a.0@ == b.0@, (None, None) => true, _ => false }
        &&& self.description == other.description
        &&& self.default_queue_type == other.default_queue_type
        &&& self.metadata.same(other.metadata)
    }

    fn to_map(&self) -> (r: JsonMap) {
        proof {
            reveal_strlit("name");
            reveal_strlit("tags");
            reveal_strlit("description");
            reveal_strlit("default_queue_type");
            reveal_strlit("metadata");
            assert("name"@[0] != "tags"@[0]);
            assert("name"@[0] != "description"@[0]);
            assert("name"@[0] != "default_queue_type"@[0]);
            assert("name"@[0] != "metadata"@[0]);
            assert("tags"@[0] != "description"@[0]);
            assert("tags"@[0] != "default_queue_type"@[0]);
            assert("tags"@[0] != "metadata"@[0]);
            assert("description"@[2] != "default_queue_type"@[2]);
            assert("description"@[0] != "metadata"@[0]);
            assert("default_queue_type"@[0] != "metadata"@[0]);
        }
        let mut m = JsonMap::new();
        m.insert("name".to_string(), JsonValue::String(self.name.clone()));
        match &self.tags {
            Some(t) => m.insert("tags".to_string(), JsonValue::Array(JsonList::from_strings(&t.0))),
            None => {},
        }
        match &self.description {
            Some(s) => m.insert("description".to_string(), JsonValue::String(s.clone())),
            None => {},
        }
        match &self.default_queue_type {
            Some(s) => m.insert("default_queue_type".to_string(), JsonValue::String(s.clone())),
            None => {},
        }
        m.insert("metadata".to_string(), JsonValue::Object(self.metadata.to_map()));
        m
    }

    proof fn lemma_read_unique(self, other: VirtualHost, m: Map<Seq<char>, JsonValue>) {
        match (self.tags, other.tags) {
            (Some(a), Some(b)) => lemma_holds_strings_unique(list_at(m, "tags"@)->0, a.0@, b.0@),
            _ => {},
        }
        self.metadata.lemma_read_unique(other.metadata, obj_at(m, "metadata"@)->0@);
    }
}

/// The limits enforced on a virtual host.
#[derive(Debug, Clone, PartialEq)]
pub struct VirtualHostLimits {
    pub vhost: String,
    pub limits: EnforcedLimits,
}

impl Record for VirtualHostLimits {
    open spec fn accepts(m: Map<Seq<char>, JsonValue>) -> bool {
        &&& str_at(m, "vhost"@) is Some
        &&& obj_at(m, "value"@) is Some
    }

    open spec fn read_from(self, m: Map<Seq<char>, JsonValue>) -> bool {
        &&& str_at(m, "vhost"@) == Some(self.vhost)
        &&& obj_at(m, "value"@) == Some(self.limits.0)
    }

    fn from_map(m: &JsonMap) -> (r: Result<VirtualHostLimits, DecodeError>) {
        let vhost = req_str(m, "vhost")?;
        let limits = EnforcedLimits(req_obj(m, "value")?);
        Ok(VirtualHostLimits { vhost, limits })
    }
}

/// The limits enforced on a user.
#[derive(Debug, Clone, PartialEq)]
pub struct UserLimits {
    pub username: String,
    pub limits: EnforcedLimits,
}

impl Record for UserLimits {
    open spec fn accepts(m: Map<Seq<char>, JsonValue>) -> bool {
        &&& str_at(m, "user"@) is Some
        &&& obj_at(m, "value"@) is Some
    }

    open spec fn read_from(self, m: Map<Seq<char>, JsonValue>) -> bool {
        &&& str_at(m, "user"@) == Some(self.username)
        &&& obj_at(m, "value"@) == Some(self.limits.0)
    }

    fn from_map(m: &JsonMap) -> (r: Result<UserLimits, DecodeError>) {
        let username = req_str(m, "user")?;
        let limits = EnforcedLimits(req_obj(m, "value")?);
        Ok(UserLimits { username, limits })
    }
}

/// A user.
#[derive(Debug, Clone, PartialEq)]
pub struct User {
    pub name: String,
    pub tags: TagList,
    pub password_hash: String,
}

impl Record for User {
    open spec fn accepts(m: Map<Seq<char>, JsonValue>) -> bool {
        &&& str_at(m, "name"@) is Some
        &&& list_at(m, "tags"@) matches Some(l) && l.all_strings()
        &&& str_at(m, "password_hash"@) is Some
    }

    open spec fn read_from(self, m: Map<Seq<char>, JsonValue>) -> bool {
        &&& str_at(m, "name"@) == Some(self.name)
        &&& list_at(m, "tags"@) matches Some(l) && l.holds_strings(self.tags.0@)
        &&& str_at(m, "password_hash"@) == Some(self.password_hash)
    }

    fn from_map(m: &JsonMap) -> (r: Result<User, DecodeError>) {
        let name = req_str(m, "name")?;
        let tags = TagList(req_strs(m, "tags")?);
        let password_hash = req_str(m, "password_hash")?;
        Ok(User { name, tags, password_hash })
    }
}

impl Encode for User {
    open spec fn same(self, other: User) -> bool {
        &&& self.name == other.name
        &&& self.tags.0@ == other.tags.0@
        &&& self.password_hash == other.password_hash
    }

    fn to_map(&self) -> (r: JsonMap) {
        proof {
            reveal_strlit("name");
            reveal_strlit("tags");
            reveal_strlit("password_hash");
            assert("name"@[0] != "tags"@[0]);
            assert("name"@[0] != "password_hash"@[0]);
            assert("tags"@[0] != "password_hash"@[0]);
        }
        let mut m = JsonMap::new();
        m.insert("name".to_string(), JsonValue::String(self.name.clone()));
        m.insert("tags".to_string(), JsonValue::Array(JsonList::from_strings(&self.tags.0)));
        m.insert("password_hash".to_string(), JsonValue::String(self.password_hash.clone()));
        m
    }

    proof fn lemma_read_unique(self, other: User, m: Map<Seq<char>, JsonValue>) {
        lemma_holds_strings_unique(list_at(m, "tags"@)->0, self.tags.0@, other.tags.0@);
    }
}

/// A client connection.
#[derive(Debug, Clone, PartialEq)]
pub struct Connection {
    pub name: String,
    pub node: String,
    pub state: String,
    pub protocol: String,
    pub username: String,
    pub connected_at: u64,
    pub server_hostname: String,
    pub server_port: u32,
    pub client_hostname: String,
    pub client_port: u32,
    pub channel_max: u16,
    pub channel_count: u16,
    pub client_properties: ClientProperties,
}

impl Record for Connection {
    open spec fn accepts(m: Map<Seq<char>, JsonValue>) -> bool {
        &&& str_at(m, "name"@) is Some
        &&& str_at(m, "node"@) is Some
        &&& !m.contains_key("state"@) || str_at(m, "state"@) is Some
        &&& str_at(m, "protocol"@) is Some
        &&& str_at(m, "user"@) is Some
        &&& uint_at(m, "connected_at"@) is Some && uint_at(m, "connected_at"@)->0 <= 0xffff_ffff_ffff_ffff
        &&& str_at(m, "host"@) is Some
        &&& uint_at(m, "port"@) is Some && uint_at(m, "port"@)->0 <= 0xffff_ffff
        &&& str_at(m, "peer_host"@) is Some
        &&& uint_at(m, "peer_port"@) is Some && uint_at(m, "peer_port"@)->0 <= 0xffff_ffff
        &&& uint_at(m, "channel_max"@) is Some && uint_at(m, "channel_max"@)->0 <= 0xffff
        &&& !m.contains_key("channels"@) || (uint_at(m, "channels"@) is Some && uint_at(m, "channels"@)->0 <= 0xffff)
        &&& obj_at(m, "client_properties"@) matches Some(o) && ClientProperties::accepts(o@)
    }

    open spec fn read_from(self, m: Map<Seq<char>, JsonValue>) -> bool {
        &&& str_at(m, "name"@) == Some(self.name)
        &&& str_at(m, "node"@) == Some(self.node)
        &&& if m.contains_key("state"@) { str_at(m, "state"@) == Some(self.state) } else { self.state@ == "?"@ }
        &&& str_at(m, "protocol"@) == Some(self.protocol)
        &&& str_at(m, "user"@) == Some(self.username)
        &&& uint_at(m, "connected_at"@) == Some(self.connected_at as u64)
        &&& str_at(m, "host"@) == Some(self.server_hostname)
        &&& uint_at(m, "port"@) == Some(self.server_port as u64)
        &&& str_at(m, "peer_host"@) == Some(self.client_hostname)
        &&& uint_at(m, "peer_port"@) == Some(self.client_port as u64)
        &&& uint_at(m, "channel_max"@) == Some(self.channel_max as u64)
        &&& if m.contains_key("channels"@) { uint_at(m, "channels"@) == Some(self.channel_count as u64) } else { self.channel_count == 0 }
        &&& obj_at(m, "client_properties"@) matches Some(o) && self.client_properties.read_from(o@)
    }

    fn from_map(m: &JsonMap) -> (r: Result<Connection, DecodeError>) {
        let name = req_str(m, "name")?;
        let node = req_str(m, "node")?;
        let state = str_or(m, "state", "?")?;
        let protocol = req_str(m, "protocol")?;
        let username = req_str(m, "user")?;
        let connected_at = req_uint(m, "connected_at", 0xffff_ffff_ffff_ffff)? as u64;
        let server_hostname = req_str(m, "host")?;
        let server_port = req_uint(m, "port", 0xffff_ffff)? as u32;
        let client_hostname = req_str(m, "peer_host")?;
        let client_port = req_uint(m, "peer_port", 0xffff_ffff)? as u32;
        let channel_max = req_uint(m, "channel_max", 0xffff)? as u16;
        let channel_count = uint_or_zero(m, "channels", 0xffff)? as u16;
        let client_properties = record_at::<ClientProperties>(m, "client_properties")?;
        Ok(Connection { name, node, state, protocol, username, connected_at, server_hostname, server_port, client_hostname, client_port, channel_max, channel_count, client_properties })
    }
}

/// Properties that a client reports about itself.
#[derive(Debug, Clone, PartialEq)]
pub struct ClientProperties {
    pub connection_name: String,
    pub platform: String,
    pub product: String,
    pub version: String,
    pub capabilities: Option<ClientCapabilities>,
}

impl Record for ClientProperties {
    open spec fn accepts(m: Map<Seq<char>, JsonValue>) -> bool {
        &&& !m.contains_key("connection_name"@) || str_at(m, "connection_name"@) is Some
        &&& !m.contains_key("platform"@) || str_at(m, "platform"@) is Some
        &&& !m.contains_key("product"@) || str_at(m, "product"@) is Some
        &&& !m.contains_key("version"@) || str_at(m, "version"@) is Some
        &&& absent_at(m, "capabilities"@) || (obj_at(m, "capabilities"@) matches Some(o) && ClientCapabilities::accepts(o@))
    }

    open spec fn read_from(self, m: Map<Seq<char>, JsonValue>) -> bool {
        &&& if m.contains_key("connection_name"@) { str_at(m, "connection_name"@) == Some(self.connection_name) } else { self.connection_name@ == ""@ }
        &&& if m.contains_key("platform"@) { str_at(m, "platform"@) == Some(self.platform) } else { self.platform@ == ""@ }
        &&& if m.contains_key("product"@) { str_at(m, "product"@) == Some(self.product) } else { self.product@ == ""@ }
        &&& if m.contains_key("version"@) { str_at(m, "version"@) == Some(self.version) } else { self.version@ == ""@ }
        &&& match self.capabilities { None => absent_at(m, "capabilities"@), Some(c) => obj_at(m, "capabilities"@) matches Some(o) && c.read_from(o@) }
    }

    fn from_map(m: &JsonMap) -> (r: Result<ClientProperties, DecodeError>) {
        let connection_name = str_or(m, "connection_name", "")?;
        let platform = str_or(m, "platform", "")?;
        let product = str_or(m, "product", "")?;
        let version = str_or(m, "version", "")?;
        let capabilities = opt_record_at::<ClientCapabilities>(m, "capabilities")?;
        Ok(ClientProperties { connection_name, platform, product, version, capabilities })
    }
}

/// Capabilities that a client reports.
#[derive(Debug, Clone, PartialEq)]
pub struct ClientCapabilities {
    pub authentication_failure_close: bool,
    pub basic_nack: bool,
    pub connection_blocked: bool,
    pub consumer_cancel_notify: bool,
    pub exchange_to_exchange_bindings: bool,
    pub publisher_confirms: bool,
}

impl Record for ClientCapabilities {
    open spec fn accepts(m: Map<Seq<char>, JsonValue>) -> bool {
        &&& bool_at(m, "authentication_failure_close"@) is Some
        &&& bool_at(m, "basic.nack"@) is Some
        &&& bool_at(m, "connection.blocked"@) is Some
        &&& bool_at(m, "consumer_cancel_notify"@) is Some
        &&& bool_at(m, "exchange_exchange_bindings"@) is Some
        &&& bool_at(m, "publisher_confirms"@) is Some
    }

    open spec fn read_from(self, m: Map<Seq<char>, JsonValue>) -> bool {
        &&& bool_at(m, "authentication_failure_close"@) == Some(self.authentication_failure_close)
        &&& bool_at(m, "basic.nack"@) == Some(self.basic_nack)
        &&& bool_at(m, "connection.blocked"@) == Some(self.connection_blocked)
        &&& bool_at(m, "consumer_cancel_notify"@) == Some(self.consumer_cancel_notify)
        &&& bool_at(m, "exchange_exchange_bindings"@) == Some(self.exchange_to_exchange_bindings)
        &&& bool_at(m, "publisher_confirms"@) == Some(self.publisher_confirms)
    }

    fn from_map(m: &JsonMap) -> (r: Result<ClientCapabilities, DecodeError>) {
        let authentication_failure_close = req_bool(m, "authentication_failure_close")?;
        let basic_nack = req_bool(m, "basic.nack")?;
        let connection_blocked = req_bool(m, "connection.blocked")?;
        let consumer_cancel_notify = req_bool(m, "consumer_cancel_notify")?;
        let exchange_to_exchange_bindings = req_bool(m, "exchange_exchange_bindings")?;
        let publisher_confirms = req_bool(m, "publisher_confirms")?;
        Ok(ClientCapabilities { authentication_failure_close, basic_nack, connection_blocked, consumer_cancel_notify, exchange_to_exchange_bindings, publisher_confirms })
    }
}

/// A connection of a user.
#[derive(Debug, Clone, PartialEq)]
pub struct UserConnection {
    pub name: String,
    pub node: String,
    pub username: String,
    pub vhost: String,
}

impl Record for UserConnection {
    open spec fn accepts(m: Map<Seq<char>, JsonValue>) -> bool {
        &&& str_at(m, "name"@) is Some
        &&& str_at(m, "node"@) is Some
        &&& str_at(m, "user"@) is Some
        &&& str_at(m, "vhost"@) is Some
    }

    open spec fn read_from(self, m: Map<Seq<char>, JsonValue>) -> bool {
        &&& str_at(m, "name"@) == Some(self.name)
        &&& str_at(m, "node"@) == Some(self.node)
        &&& str_at(m, "user"@) == Some(self.username)
        &&& str_at(m, "vhost"@) == Some(self.vhost)
    }

    fn from_map(m: &JsonMap) -> (r: Result<UserConnection, DecodeError>) {
        let name = req_str(m, "name")?;
        let node = req_str(m, "node")?;
        let username = req_str(m, "user")?;
        let vhost = req_str(m, "vhost")?;
        Ok(UserConnection { name, node, username, vhost })
    }
}

/// A channel.
#[derive(Debug, Clone, PartialEq)]
pub struct Channel {
    pub id: u32,
    pub name: String,
    pub connection_details: ConnectionDetails,
    pub vhost: String,
    pub state: String,
    pub consumer_count: u32,
    pub has_publisher_confirms_enabled: bool,
    pub prefetch_count: u32,
    pub messages_unacknowledged: u32,
    pub messages_unconfirmed: u32,
}

impl Record for Channel {
    open spec fn accepts(m: Map<Seq<char>, JsonValue>) -> bool {
        &&& uint_at(m, "number"@) is Some && uint_at(m, "number"@)->0 <= 0xffff_ffff
        &&& str_at(m, "name"@) is Some
        &&& obj_at(m, "connection_details"@) matches Some(o) && ConnectionDetails::accepts(o@)
        &&& str_at(m, "vhost"@) is Some
        &&& str_at(m, "state"@) is Some
        &&& uint_at(m, "consumer_count"@) is Some && uint_at(m, "consumer_count"@)->0 <= 0xffff_ffff
        &&& bool_at(m, "confirm"@) is Some
        &&& uint_at(m, "prefetch_count"@) is Some && uint_at(m, "prefetch_count"@)->0 <= 0xffff_ffff
        &&& uint_at(m, "messages_unacknowledged"@) is Some && uint_at(m, "messages_unacknowledged"@)->0 <= 0xffff_ffff
        &&& uint_at(m, "messages_unconfirmed"@) is Some && uint_at(m, "messages_unconfirmed"@)->0 <= 0xffff_ffff
    }

    open spec fn read_from(self, m: Map<Seq<char>, JsonValue>) -> bool {
        &&& uint_at(m, "number"@) == Some(self.id as u64)
        &&& str_at(m, "name"@) == Some(self.name)
        &&& obj_at(m, "connection_details"@) matches Some(o) && self.connection_details.read_from(o@)
        &&& str_at(m, "vhost"@) == Some(self.vhost)
        &&& str_at(m, "state"@) == Some(self.state)
        &&& uint_at(m, "consumer_count"@) == Some(self.consumer_count as u64)
        &&& bool_at(m, "confirm"@) == Some(self.has_publisher_confirms_enabled)
        &&& uint_at(m, "prefetch_count"@) == Some(self.prefetch_count as u64)
        &&& uint_at(m, "messages_unacknowledged"@) == Some(self.messages_unacknowledged as u64)
        &&& uint_at(m, "messages_unconfirmed"@) == Some(self.messages_unconfirmed as u64)
    }

    fn from_map(m: &JsonMap) -> (r: Result<Channel, DecodeError>) {
        let id = req_uint(m, "number", 0xffff_ffff)? as u32;
        let name = req_str(m, "name")?;
        let connection_details = record_at::<ConnectionDetails>(m, "connection_details")?;
        let vhost = req_str(m, "vhost")?;
        let state = req_str(m, "state")?;
        let consumer_count = req_uint(m, "consumer_count", 0xffff_ffff)? as u32;
        let has_publisher_confirms_enabled = req_bool(m, "confirm")?;
        let prefetch_count = req_uint(m, "prefetch_count", 0xffff_ffff)? as u32;
        let messages_unacknowledged = req_uint(m, "messages_unacknowledged", 0xffff_ffff)? as u32;
        let messages_unconfirmed = req_uint(m, "messages_unconfirmed", 0xffff_ffff)? as u32;
        Ok(Channel { id, name, connection_details, vhost, state, consumer_count, has_publisher_confirms_enabled, prefetch_count, messages_unacknowledged, messages_unconfirmed })
    }
}

/// The connection that a channel belongs to.
#[derive(Debug, Clone, PartialEq)]
pub struct ConnectionDetails {
    pub name: String,
    pub client_hostname: String,
    pub client_port: u32,
}

impl Record for ConnectionDetails {
    open spec fn accepts(m: Map<Seq<char>, JsonValue>) -> bool {
        &&& str_at(m, "name"@) is Some
        &&& str_at(m, "peer_host"@) is Some
        &&& uint_at(m, "peer_port"@) is Some && uint_at(m, "peer_port"@)->0 <= 0xffff_ffff
    }

    open spec fn read_from(self, m: Map<Seq<char>, JsonValue>) -> bool {
        &&& str_at(m, "name"@) == Some(self.name)
        &&& str_at(m, "peer_host"@) == Some(self.client_hostname)
        &&& uint_at(m, "peer_port"@) == Some(self.client_port as u64)
    }

    fn from_map(m: &JsonMap) -> (r: Result<ConnectionDetails, DecodeError>) {
        let name = req_str(m, "name")?;
        let client_hostname = req_str(m, "peer_host")?;
        let client_port = req_uint(m, "peer_port", 0xffff_ffff)? as u32;
        Ok(ConnectionDetails { name, client_hostname, client_port })
    }
}

/// The channel that a consumer belongs to.
#[derive(Debug, Clone, PartialEq)]
pub struct ChannelDetails {
    pub id: u32,
    pub name: String,
    pub connection_name: String,
    pub node: String,
    pub client_hostname: String,
    pub client_port: u32,
    pub username: String,
}

impl Record for ChannelDetails {
    open spec fn accepts(m: Map<Seq<char>, JsonValue>) -> bool {
        &&& uint_at(m, "number"@) is Some && uint_at(m, "number"@)->0 <= 0xffff_ffff
        &&& str_at(m, "name"@) is Some
        &&& str_at(m, "connection_name"@) is Some
        &&& str_at(m, "node"@) is Some
        &&& str_at(m, "peer_host"@) is Some
        &&& uint_at(m, "peer_port"@) is Some && uint_at(m, "peer_port"@)->0 <= 0xffff_ffff
        &&& str_at(m, "user"@) is Some
    }

    open spec fn read_from(self, m: Map<Seq<char>, JsonValue>) -> bool {
        &&& uint_at(m, "number"@) == Some(self.id as u64)
        &&& str_at(m, "name"@) == Some(self.name)
        &&& str_at(m, "connection_name"@) == Some(self.connection_name)
        &&& str_at(m, "node"@) == Some(self.node)
        &&& str_at(m, "peer_host"@) == Some(self.client_hostname)
        &&& uint_at(m, "peer_port"@) == Some(self.client_port as u64)
        &&& str_at(m, "user"@) == Some(self.username)
    }

    fn from_map(m: &JsonMap) -> (r: Result<ChannelDetails, DecodeError>) {
        let id = req_uint(m, "number", 0xffff_ffff)? as u32;
        let name = req_str(m, "name")?;
        let connection_name = req_str(m, "connection_name")?;
        let node = req_str(m, "node")?;
        let client_hostname = req_str(m, "peer_host")?;
        let client_port = req_uint(m, "peer_port", 0xffff_ffff)? as u32;
        let username = req_str(m, "user")?;
        Ok(ChannelDetails { id, name, connection_name, node, client_hostname, client_port, username })
    }
}

/// A consumer.
#[derive(Debug, Clone, PartialEq)]
pub struct Consumer {
    pub consumer_tag: String,
    pub active: bool,
    pub manual_ack: bool,
    pub prefetch_count: u32,
    pub exclusive: bool,
    pub arguments: XArguments,
    pub delivery_ack_timeout: u64,
    pub queue: NameAndVirtualHost,
    pub channel_details: ChannelDetails,
}

impl Record for Consumer {
    open spec fn accepts(m: Map<Seq<char>, JsonValue>) -> bool {
        &&& str_at(m, "consumer_tag"@) is Some
        &&& bool_at(m, "active"@) is Some
        &&& bool_at(m, "ack_required"@) is Some
        &&& uint_at(m, "prefetch_count"@) is Some && uint_at(m, "prefetch_count"@)->0 <= 0xffff_ffff
        &&& bool_at(m, "exclusive"@) is Some
        &&& obj_at(m, "arguments"@) is Some
        &&& uint_at(m, "consumer_timeout"@) is Some && uint_at(m, "consumer_timeout"@)->0 <= 0xffff_ffff_ffff_ffff
        &&& obj_at(m, "queue"@) matches Some(o) && NameAndVirtualHost::accepts(o@)
        &&& obj_at(m, "channel_details"@) matches Some(o) && ChannelDetails::accepts(o@)
    }

    open spec fn read_from(self, m: Map<Seq<char>, JsonValue>) -> bool {
        &&& str_at(m, "consumer_tag"@) == Some(self.consumer_tag)
        &&& bool_at(m, "active"@) == Some(self.active)
        &&& bool_at(m, "ack_required"@) == Some(self.manual_ack)
        &&& uint_at(m, "prefetch_count"@) == Some(self.prefetch_count as u64)
        &&& bool_at(m, "exclusive"@) == Some(self.exclusive)
        &&& obj_at(m, "arguments"@) == Some(self.arguments.0)
        &&& uint_at(m, "consumer_timeout"@) == Some(self.delivery_ack_timeout as u64)
        &&& obj_at(m, "queue"@) matches Some(o) && self.queue.read_from(o@)
        &&& obj_at(m, "channel_details"@) matches Some(o) && self.channel_details.read_from(o@)
    }

    fn from_map(m: &JsonMap) -> (r: Result<Consumer, DecodeError>) {
        let consumer_tag = req_str(m, "consumer_tag")?;
        let active = req_bool(m, "active")?;
        let manual_ack = req_bool(m, "ack_required")?;
        let prefetch_count = req_uint(m, "prefetch_count", 0xffff_ffff)? as u32;
        let exclusive = req_bool(m, "exclusive")?;
        let arguments = XArguments(req_obj(m, "arguments")?);
        let delivery_ack_timeout = req_uint(m, "consumer_timeout", 0xffff_ffff_ffff_ffff)? as u64;
        let queue = record_at::<NameAndVirtualHost>(m, "queue")?;
        let channel_details = record_at::<ChannelDetails>(m, "channel_details")?;
        Ok(Consumer { consumer_tag, active, manual_ack, prefetch_count, exclusive, arguments, delivery_ack_timeout, queue, channel_details })
    }
}

/// A name within a virtual host.
#[derive(Debug, Clone, PartialEq)]
pub struct NameAndVirtualHost {
    pub name: String,
    pub vhost: String,
}

impl Record for NameAndVirtualHost {
    open spec fn accepts(m: Map<Seq<char>, JsonValue>) -> bool {
        &&& str_at(m, "name"@) is Some
        &&& str_at(m, "vhost"@) is Some
    }

    open spec fn read_from(self, m: Map<Seq<char>, JsonValue>) -> bool {
        &&& str_at(m, "name"@) == Some(self.name)
        &&& str_at(m, "vhost"@) == Some(self.vhost)
    }

    fn from_map(m: &JsonMap) -> (r: Result<NameAndVirtualHost, DecodeError>) {
        let name = req_str(m, "name")?;
        let vhost = req_str(m, "vhost")?;
        Ok(NameAndVirtualHost { name, vhost })
    }
}

/// A queue as the server reports it. Leader, members and online nodes are
/// reported for replicated kinds only.
#[derive(Debug, Clone, PartialEq)]
pub struct QueueInfo {
    pub name: String,
    pub vhost: String,
    pub queue_type: String,
    pub durable: bool,
    pub auto_delete: bool,
    pub exclusive: bool,
    pub arguments: XArguments,
    pub node: String,
    pub state: String,
    pub leader: Option<String>,
    pub members: Option<NodeList>,
    pub online: Option<NodeList>,
    pub memory: u64,
    pub consumer_count: u16,
    pub consumer_utilisation: JsonNumber,
    pub exclusive_consumer_tag: Option<String>,
    pub policy: Option<String>,
    pub message_bytes: u64,
    pub message_bytes_persistent: u64,
    pub message_bytes_ram: u64,
    pub message_bytes_ready: u64,
    pub message_bytes_unacknowledged: u64,
    pub message_count: u64,
    pub on_disk_message_count: u64,
    pub in_memory_message_count: u64,
    pub unacknowledged_message_count: u64,
}

impl Record for QueueInfo {
    open spec fn accepts(m: Map<Seq<char>, JsonValue>) -> bool {
        &&& str_at(m, "name"@) is Some
        &&& str_at(m, "vhost"@) is Some
        &&& str_at(m, "type"@) is Some
        &&& bool_at(m, "durable"@) is Some
        &&& bool_at(m, "auto_delete"@) is Some
        &&& bool_at(m, "exclusive"@) is Some
        &&& obj_at(m, "arguments"@) is Some
        &&& !m.contains_key("node"@) || str_at(m, "node"@) is Some
        &&& !m.contains_key("state"@) || str_at(m, "state"@) is Some
        &&& absent_at(m, "leader"@) || str_at(m, "leader"@) is Some
        &&& absent_at(m, "members"@) || (list_at(m, "members"@) matches Some(l) && l.all_strings())
        &&& absent_at(m, "online"@) || (list_at(m, "online"@) matches Some(l) && l.all_strings())
        &&& !m.contains_key("memory"@) || (uint_at(m, "memory"@) is Some && uint_at(m, "memory"@)->0 <= 0xffff_ffff_ffff_ffff)
        &&& !m.contains_key("consumers"@) || (uint_at(m, "consumers"@) is Some && uint_at(m, "consumers"@)->0 <= 0xffff)
        &&& !m.contains_key("consumer_utilisation"@) || m["consumer_utilisation"@] is Number
        &&& absent_at(m, "exclusive_consumer_tag"@) || str_at(m, "exclusive_consumer_tag"@) is Some
        &&& absent_at(m, "policy"@) || str_at(m, "policy"@) is Some
        &&& !m.contains_key("message_bytes"@) || (uint_at(m, "message_bytes"@) is Some && uint_at(m, "message_bytes"@)->0 <= 0xffff_ffff_ffff_ffff)
        &&& !m.contains_key("message_bytes_persistent"@) || (uint_at(m, "message_bytes_persistent"@) is Some && uint_at(m, "message_bytes_persistent"@)->0 <= 0xffff_ffff_ffff_ffff)
        &&& !m.contains_key("message_bytes_ram"@) || (uint_at(m, "message_bytes_ram"@) is Some && uint_at(m, "message_bytes_ram"@)->0 <= 0xffff_ffff_ffff_ffff)
        &&& !m.contains_key("message_bytes_ready"@) || (uint_at(m, "message_bytes_ready"@) is Some && uint_at(m, "message_bytes_ready"@)->0 <= 0xffff_ffff_ffff_ffff)
        &&& !m.contains_key("message_bytes_unacknowledged"@) || (uint_at(m, "message_bytes_unacknowledged"@) is Some && uint_at(m, "message_bytes_unacknowledged"@)->0 <= 0xffff_ffff_ffff_ffff)
        &&& !m.contains_key("messages"@) || (uint_at(m, "messages"@) is Some && uint_at(m, "messages"@)->0 <= 0xffff_ffff_ffff_ffff)
        &&& !m.contains_key("messages_persistent"@) || (uint_at(m, "messages_persistent"@) is Some && uint_at(m, "messages_persistent"@)->0 <= 0xffff_ffff_ffff_ffff)
        &&& !m.contains_key("messages_ram"@) || (uint_at(m, "messages_ram"@) is Some && uint_at(m, "messages_ram"@)->0 <= 0xffff_ffff_ffff_ffff)
        &&& !m.contains_key("messages_unacknowledged"@) || (uint_at(m, "messages_unacknowledged"@) is Some && uint_at(m, "messages_unacknowledged"@)->0 <= 0xffff_ffff_ffff_ffff)
    }

    open spec fn read_from(self, m: Map<Seq<char>, JsonValue>) -> bool {
        &&& str_at(m, "name"@) == Some(self.name)
        &&& str_at(m, "vhost"@) == Some(self.vhost)
        &&& str_at(m, "type"@) == Some(self.queue_type)
        &&& bool_at(m, "durable"@) == Some(self.durable)
        &&& bool_at(m, "auto_delete"@) == Some(self.auto_delete)
        &&& bool_at(m, "exclusive"@) == Some(self.exclusive)
        &&& obj_at(m, "arguments"@) == Some(self.arguments.0)
        &&& if m.contains_key("node"@) { str_at(m, "node"@) == Some(self.node) } else { self.node@ == "?"@ }
        &&& if m.contains_key("state"@) { str_at(m, "state"@) == Some(self.state) } else { self.state@ == ""@ }
        &&& self.leader == str_at(m, "leader"@)
        &&& match self.members { None => absent_at(m, "members"@), Some(t) => list_at(m, "members"@) matches Some(l) && l.holds_strings(t.0@) }
        &&& match self.online { None => absent_at(m, "online"@), Some(t) => list_at(m, "online"@) matches Some(l) && l.holds_strings(t.0@) }
        &&& if m.contains_key("memory"@) { uint_at(m, "memory"@) == Some(self.memory as u64) } else { self.memory == 0 }
        &&& if m.contains_key("consumers"@) { uint_at(m, "consumers"@) == Some(self.consumer_count as u64) } else { self.consumer_count == 0 }
        &&& if m.contains_key("consumer_utilisation"@) { m["consumer_utilisation"@] == JsonValue::Number(self.consumer_utilisation) } else { self.consumer_utilisation == JsonNumber::PosInt(0) }
        &&& self.exclusive_consumer_tag == str_at(m, "exclusive_consumer_tag"@)
        &&& self.policy == str_at(m, "policy"@)
        &&& if m.contains_key("message_bytes"@) { uint_at(m, "message_bytes"@) == Some(self.message_bytes as u64) } else { self.message_bytes == 0 }
        &&& if m.contains_key("message_bytes_persistent"@) { uint_at(m, "message_bytes_persistent"@) == Some(self.message_bytes_persistent as u64) } else { self.message_bytes_persistent == 0 }
        &&& if m.contains_key("message_bytes_ram"@) { uint_at(m, "message_bytes_ram"@) == Some(self.message_bytes_ram as u64) } else { self.message_bytes_ram == 0 }
        &&& if m.contains_key("message_bytes_ready"@) { uint_at(m, "message_bytes_ready"@) == Some(self.message_bytes_ready as u64) } else { self.message_bytes_ready == 0 }
        &&& if m.contains_key("message_bytes_unacknowledged"@) { uint_at(m, "message_bytes_unacknowledged"@) == Some(self.message_bytes_unacknowledged as u64) } else { self.message_bytes_unacknowledged == 0 }
        &&& if m.contains_key("messages"@) { uint_at(m, "messages"@) == Some(self.message_count as u64) } else { self.message_count == 0 }
        &&& if m.contains_key("messages_persistent"@) { uint_at(m, "messages_persistent"@) == Some(self.on_disk_message_count as u64) } else { self.on_disk_message_count == 0 }
        &&& if m.contains_key("messages_ram"@) { uint_at(m, "messages_ram"@) == Some(self.in_memory_message_count as u64) } else { self.in_memory_message_count == 0 }
        &&& if m.contains_key("messages_unacknowledged"@) { uint_at(m, "messages_unacknowledged"@) == Some(self.unacknowledged_message_count as u64) } else { self.unacknowledged_message_count == 0 }
    }

    fn from_map(m: &JsonMap) -> (r: Result<QueueInfo, DecodeError>) {
        let name = req_str(m, "name")?;
        let vhost = req_str(m, "vhost")?;
        let queue_type = req_str(m, "type")?;
        let durable = req_bool(m, "durable")?;
        let auto_delete = req_bool(m, "auto_delete")?;
        let exclusive = req_bool(m, "exclusive")?;
        let arguments = XArguments(req_obj(m, "arguments")?);
        let node = str_or(m, "node", "?")?;
        let state = str_or(m, "state", "")?;
        let leader = opt_str(m, "leader")?;
        let members = match opt_strs(m, "members")? {
            Some(v) => Some(NodeList(v)),
            None => None,
        };
        let online = match opt_strs(m, "online")? {
            Some(v) => Some(NodeList(v)),
            None => None,
        };
        let memory = uint_or_zero(m, "memory", 0xffff_ffff_ffff_ffff)? as u64;
        let consumer_count = uint_or_zero(m, "consumers", 0xffff)? as u16;
        let consumer_utilisation = num_or_zero(m, "consumer_utilisation")?;
        let exclusive_consumer_tag = opt_str(m, "exclusive_consumer_tag")?;
        let policy = opt_str(m, "policy")?;
        let message_bytes = uint_or_zero(m, "message_bytes", 0xffff_ffff_ffff_ffff)? as u64;
        let message_bytes_persistent = uint_or_zero(m, "message_bytes_persistent", 0xffff_ffff_ffff_ffff)? as u64;
        let message_bytes_ram = uint_or_zero(m, "message_bytes_ram", 0xffff_ffff_ffff_ffff)? as u64;
        let message_bytes_ready = uint_or_zero(m, "message_bytes_ready", 0xffff_ffff_ffff_ffff)? as u64;
        let message_bytes_unacknowledged = uint_or_zero(m, "message_bytes_unacknowledged", 0xffff_ffff_ffff_ffff)? as u64;
        let message_count = uint_or_zero(m, "messages", 0xffff_ffff_ffff_ffff)? as u64;
        let on_disk_message_count = uint_or_zero(m, "messages_persistent", 0xffff_ffff_ffff_ffff)? as u64;
        let in_memory_message_count = uint_or_zero(m, "messages_ram", 0xffff_ffff_ffff_ffff)? as u64;
        let unacknowledged_message_count = uint_or_zero(m, "messages_unacknowledged", 0xffff_ffff_ffff_ffff)? as u64;
        Ok(QueueInfo { name, vhost, queue_type, durable, auto_delete, exclusive, arguments, node, state, leader, members, online, memory, consumer_count, consumer_utilisation, exclusive_consumer_tag, policy, message_bytes, message_bytes_persistent, message_bytes_ram, message_bytes_ready, message_bytes_unacknowledged, message_count, on_disk_message_count, in_memory_message_count, unacknowledged_message_count })
    }
}

/// A queue in a definition set.
#[derive(Debug, Clone, PartialEq)]
pub struct QueueDefinition {
    pub name: String,
    pub vhost: String,
    pub durable: bool,
    pub auto_delete: bool,
    pub arguments: XArguments,
}

impl Record for QueueDefinition {
    open spec fn accepts(m: Map<Seq<char>, JsonValue>) -> bool {
        &&& str_at(m, "name"@) is Some
        &&& str_at(m, "vhost"@) is Some
        &&& bool_at(m, "durable"@) is Some
        &&& bool_at(m, "auto_delete"@) is Some
        &&& obj_at(m, "arguments"@) is Some
    }

    open spec fn read_from(self, m: Map<Seq<char>, JsonValue>) -> bool {
        &&& str_at(m, "name"@) == Some(self.name)
        &&& str_at(m, "vhost"@) == Some(self.vhost)
        &&& bool_at(m, "durable"@) == Some(self.durable)
        &&& bool_at(m, "auto_delete"@) == Some(self.auto_delete)
        &&& obj_at(m, "arguments"@) == Some(self.arguments.0)
    }

    fn from_map(m: &JsonMap) -> (r: Result<QueueDefinition, DecodeError>) {
        let name = req_str(m, "name")?;
        let vhost = req_str(m, "vhost")?;
        let durable = req_bool(m, "durable")?;
        let auto_delete = req_bool(m, "auto_delete")?;
        let arguments = XArguments(req_obj(m, "arguments")?);
        Ok(QueueDefinition { name, vhost, durable, auto_delete, arguments })
    }
}

impl Encode for QueueDefinition {
    open spec fn same(self, other: QueueDefinition) -> bool {
        &&& self.name == other.name
        &&& self.vhost == other.vhost
        &&& self.durable == other.durable
        &&& self.auto_delete == other.auto_delete
        &&& self.arguments == other.arguments
    }

    fn to_map(&self) -> (r: JsonMap) {
        proof {
            reveal_strlit("name");
            reveal_strlit("vhost");
            reveal_strlit("durable");
            reveal_strlit("auto_delete");
            reveal_strlit("arguments");
            assert("name"@[0] != "vhost"@[0]);
            assert("name"@[0] != "durable"@[0]);
            assert("name"@[0] != "auto_delete"@[0]);
            assert("name"@[0] != "arguments"@[0]);
            assert("vhost"@[0] != "durable"@[0]);
            assert("vhost"@[0] != "auto_delete"@[0]);
            assert("vhost"@[0] != "arguments"@[0]);
            assert("durable"@[0] != "auto_delete"@[0]);
            assert("durable"@[0] != "arguments"@[0]);
            assert("auto_delete"@[1] != "arguments"@[1]);
        }
        let mut m = JsonMap::new();
        m.insert("name".to_string(), JsonValue::String(self.name.clone()));
        m.insert("vhost".to_string(), JsonValue::String(self.vhost.clone()));
        m.insert("durable".to_string(), JsonValue::Bool(self.durable));
        m.insert("auto_delete".to_string(), JsonValue::Bool(self.auto_delete));
        m.insert("arguments".to_string(), JsonValue::Object(self.arguments.0.duplicate()));
        m
    }

    proof fn lemma_read_unique(self, other: QueueDefinition, m: Map<Seq<char>, JsonValue>) {
    }
}

/// An exchange, as reported and as kept in a definition set.
#[derive(Debug, Clone, PartialEq)]
pub struct ExchangeInfo {
    pub name: String,
    pub vhost: String,
    pub exchange_type: String,
    pub durable: bool,
    pub auto_delete: bool,
    pub arguments: XArguments,
}

impl Record for ExchangeInfo {
    open spec fn accepts(m: Map<Seq<char>, JsonValue>) -> bool {
        &&& str_at(m, "name"@) is Some
        &&& str_at(m, "vhost"@) is Some
        &&& str_at(m, "type"@) is Some
        &&& bool_at(m, "durable"@) is Some
        &&& bool_at(m, "auto_delete"@) is Some
        &&& obj_at(m, "arguments"@) is Some
    }

    open spec fn read_from(self, m: Map<Seq<char>, JsonValue>) -> bool {
        &&& str_at(m, "name"@) == Some(self.name)
        &&& str_at(m, "vhost"@) == Some(self.vhost)
        &&& str_at(m, "type"@) == Some(self.exchange_type)
        &&& bool_at(m, "durable"@) == Some(self.durable)
        &&& bool_at(m, "auto_delete"@) == Some(self.auto_delete)
        &&& obj_at(m, "arguments"@) == Some(self.arguments.0)
    }

    fn from_map(m: &JsonMap) -> (r: Result<ExchangeInfo, DecodeError>) {
        let name = req_str(m, "name")?;
        let vhost = req_str(m, "vhost")?;
        let exchange_type = req_str(m, "type")?;
        let durable = req_bool(m, "durable")?;
        let auto_delete = req_bool(m, "auto_delete")?;
        let arguments = XArguments(req_obj(m, "arguments")?);
        Ok(ExchangeInfo { name, vhost, exchange_type, durable, auto_delete, arguments })
    }
}

impl Encode for ExchangeInfo {
    open spec fn same(self, other: ExchangeInfo) -> bool {
        &&& self.name == other.name
        &&& self.vhost == other.vhost
        &&& self.exchange_type == other.exchange_type
        &&& self.durable == other.durable
        &&& self.auto_delete == other.auto_delete
        &&& self.arguments == other.arguments
    }

    fn to_map(&self) -> (r: JsonMap) {
        proof {
            reveal_strlit("name");
            reveal_strlit("vhost");
            reveal_strlit("type");
            reveal_strlit("durable");
            reveal_strlit("auto_delete");
            reveal_strlit("arguments");
            assert("name"@[0] != "vhost"@[0]);
            assert("name"@[0] != "type"@[0]);
            assert("name"@[0] != "durable"@[0]);
            assert("name"@[0] != "auto_delete"@[0]);
            assert("name"@[0] != "arguments"@[0]);
            assert("vhost"@[0] != "type"@[0]);
            assert("vhost"@[0] != "durable"@[0]);
            assert("vhost"@[0] != "auto_delete"@[0]);
            assert("vhost"@[0] != "arguments"@[0]);
            assert("type"@[0] != "durable"@[0]);
            assert("type"@[0] != "auto_delete"@[0]);
            assert("type"@[0] != "arguments"@[0]);
            assert("durable"@[0] != "auto_delete"@[0]);
            assert("durable"@[0] != "arguments"@[0]);
            assert("auto_delete"@[1] != "arguments"@[1]);
        }
        let mut m = JsonMap::new();
        m.insert("name".to_string(), JsonValue::String(self.name.clone()));
        m.insert("vhost".to_string(), JsonValue::String(self.vhost.clone()));
        m.insert("type".to_string(), JsonValue::String(self.exchange_type.clone()));
        m.insert("durable".to_string(), JsonValue::Bool(self.durable));
        m.insert("auto_delete".to_string(), JsonValue::Bool(self.auto_delete));
        m.insert("arguments".to_string(), JsonValue::Object(self.arguments.0.duplicate()));
        m
    }

    proof fn lemma_read_unique(self, other: ExchangeInfo, m: Map<Seq<char>, JsonValue>) {
    }
}

/// A binding.
#[derive(Debug, Clone, PartialEq)]
pub struct BindingInfo {
    pub vhost: String,
    pub source: String,
    pub destination: String,
    pub destination_type: BindingDestinationType,
    pub routing_key: String,
    pub arguments: XArguments,
    pub properties_key: Option<String>,
}

impl Record for BindingInfo {
    open spec fn accepts(m: Map<Seq<char>, JsonValue>) -> bool {
        &&& str_at(m, "vhost"@) is Some
        &&& str_at(m, "source"@) is Some
        &&& str_at(m, "destination"@) is Some
        &&& str_at(m, "destination_type"@) is Some
        &&& str_at(m, "routing_key"@) is Some
        &&& obj_at(m, "arguments"@) is Some
        &&& absent_at(m, "properties_key"@) || str_at(m, "properties_key"@) is Some
    }

    open spec fn read_from(self, m: Map<Seq<char>, JsonValue>) -> bool {
        &&& str_at(m, "vhost"@) == Some(self.vhost)
        &&& str_at(m, "source"@) == Some(self.source)
        &&& str_at(m, "destination"@) == Some(self.destination)
        &&& str_at(m, "destination_type"@) matches Some(s) && self.destination_type == BindingDestinationType::spec_from(s@)
        &&& str_at(m, "routing_key"@) == Some(self.routing_key)
        &&& obj_at(m, "arguments"@) == Some(self.arguments.0)
        &&& self.properties_key == str_at(m, "properties_key"@)
    }

    fn from_map(m: &JsonMap) -> (r: Result<BindingInfo, DecodeError>) {
        let vhost = req_str(m, "vhost")?;
        let source = req_str(m, "source")?;
        let destination = req_str(m, "destination")?;
        let destination_type = BindingDestinationType::from(req_str(m, "destination_type")?.as_str());
        let routing_key = req_str(m, "routing_key")?;
        let arguments = XArguments(req_obj(m, "arguments")?);
        let properties_key = opt_str(m, "properties_key")?;
        Ok(BindingInfo { vhost, source, destination, destination_type, routing_key, arguments, properties_key })
    }
}

impl Encode for BindingInfo {
    open spec fn same(self, other: BindingInfo) -> bool {
        &&& self.vhost == other.vhost
        &&& self.source == other.source
        &&& self.destination == other.destination
        &&& self.destination_type == other.destination_type
        &&& self.routing_key == other.routing_key
        &&& self.arguments == other.arguments
        &&& self.properties_key == other.properties_key
    }

    fn to_map(&self) -> (r: JsonMap) {
        proof {
            reveal_strlit("vhost");
            reveal_strlit("source");
            reveal_strlit("destination");
            reveal_strlit("destination_type");
            reveal_strlit("routing_key");
            reveal_strlit("arguments");
            reveal_strlit("properties_key");
            assert("vhost"@[0] != "source"@[0]);
            assert("vhost"@[0] != "destination"@[0]);
            assert("vhost"@[0] != "destination_type"@[0]);
            assert("vhost"@[0] != "routing_key"@[0]);
            assert("vhost"@[0] != "arguments"@[0]);
            assert("vhost"@[0] != "properties_key"@[0]);
            assert("source"@[0] != "destination"@[0]);
            assert("source"@[0] != "destination_type"@[0]);
            assert("source"@[0] != "routing_key"@[0]);
            assert("source"@[0] != "arguments"@[0]);
            assert("source"@[0] != "properties_key"@[0]);
            assert("destination"@.len() != "destination_type"@.len());
            assert("destination"@[0] != "routing_key"@[0]);
            assert("destination"@[0] != "arguments"@[0]);
            assert("destination"@[0] != "properties_key"@[0]);
            assert("destination_type"@[0] != "routing_key"@[0]);
            assert("destination_type"@[0] != "arguments"@[0]);
            assert("destination_type"@[0] != "properties_key"@[0]);
            assert("routing_key"@[0] != "arguments"@[0]);
            assert("routing_key"@[0] != "properties_key"@[0]);
            assert("arguments"@[0] != "properties_key"@[0]);
            lemma_binding_destination_round_trip(self.destination_type);
        }
        let mut m = JsonMap::new();
        m.insert("vhost".to_string(), JsonValue::String(self.vhost.clone()));
        m.insert("source".to_string(), JsonValue::String(self.source.clone()));
        m.insert("destination".to_string(), JsonValue::String(self.destination.clone()));
        m.insert("destination_type".to_string(), JsonValue::String(self.destination_type.to_wire()));
        m.insert("routing_key".to_string(), JsonValue::String(self.routing_key.clone()));
        m.insert("arguments".to_string(), JsonValue::Object(self.arguments.0.duplicate()));
        match &self.properties_key {
            Some(s) => m.insert("properties_key".to_string(), JsonValue::String(s.clone())),
            None => {},
        }
        m
    }

    proof fn lemma_read_unique(self, other: BindingInfo, m: Map<Seq<char>, JsonValue>) {
    }
}

/// A cluster node. Its process identifier may come as a number or as its decimal text.
#[derive(Debug, Clone, PartialEq)]
pub struct ClusterNode {
    pub name: String,
    pub uptime: u32,
    pub run_queue: u32,
    pub processors: u32,
    pub os_pid: u32,
    pub fd_total: u32,
    pub total_erlang_processes: u32,
    pub memory_high_watermark: u64,
    pub has_memory_alarm_in_effect: bool,
    pub free_disk_space_low_watermark: u64,
    pub has_free_disk_space_alarm_in_effect: bool,
    pub rates_mode: String,
}

impl Record for ClusterNode {
    open spec fn accepts(m: Map<Seq<char>, JsonValue>) -> bool {
        &&& str_at(m, "name"@) is Some
        &&& uint_at(m, "uptime"@) is Some && uint_at(m, "uptime"@)->0 <= 0xffff_ffff
        &&& uint_at(m, "run_queue"@) is Some && uint_at(m, "run_queue"@)->0 <= 0xffff_ffff
        &&& uint_at(m, "processors"@) is Some && uint_at(m, "processors"@)->0 <= 0xffff_ffff
        &&& u32_or_text_at(m, "os_pid"@) is Some
        &&& uint_at(m, "fd_total"@) is Some && uint_at(m, "fd_total"@)->0 <= 0xffff_ffff
        &&& uint_at(m, "proc_total"@) is Some && uint_at(m, "proc_total"@)->0 <= 0xffff_ffff
        &&& uint_at(m, "mem_limit"@) is Some && uint_at(m, "mem_limit"@)->0 <= 0xffff_ffff_ffff_ffff
        &&& bool_at(m, "mem_alarm"@) is Some
        &&& uint_at(m, "disk_free_limit"@) is Some && uint_at(m, "disk_free_limit"@)->0 <= 0xffff_ffff_ffff_ffff
        &&& bool_at(m, "disk_free_alarm"@) is Some
        &&& str_at(m, "rates_mode"@) is Some
    }

    open spec fn read_from(self, m: Map<Seq<char>, JsonValue>) -> bool {
        &&& str_at(m, "name"@) == Some(self.name)
        &&& uint_at(m, "uptime"@) == Some(self.uptime as u64)
        &&& uint_at(m, "run_queue"@) == Some(self.run_queue as u64)
        &&& uint_at(m, "processors"@) == Some(self.processors as u64)
        &&& u32_or_text_at(m, "os_pid"@) == Some(self.os_pid)
        &&& uint_at(m, "fd_total"@) == Some(self.fd_total as u64)
        &&& uint_at(m, "proc_total"@) == Some(self.total_erlang_processes as u64)
        &&& uint_at(m, "mem_limit"@) == Some(self.memory_high_watermark as u64)
        &&& bool_at(m, "mem_alarm"@) == Some(self.has_memory_alarm_in_effect)
        &&& uint_at(m, "disk_free_limit"@) == Some(self.free_disk_space_low_watermark as u64)
        &&& bool_at(m, "disk_free_alarm"@) == Some(self.has_free_disk_space_alarm_in_effect)
        &&& str_at(m, "rates_mode"@) == Some(self.rates_mode)
    }

    fn from_map(m: &JsonMap) -> (r: Result<ClusterNode, DecodeError>) {
        let name = req_str(m, "name")?;
        let uptime = req_uint(m, "uptime", 0xffff_ffff)? as u32;
        let run_queue = req_uint(m, "run_queue", 0xffff_ffff)? as u32;
        let processors = req_uint(m, "processors", 0xffff_ffff)? as u32;
        let os_pid = u32_or_text(m, "os_pid")?;
        let fd_total = req_uint(m, "fd_total", 0xffff_ffff)? as u32;
        let total_erlang_processes = req_uint(m, "proc_total", 0xffff_ffff)? as u32;
        let memory_high_watermark = req_uint(m, "mem_limit", 0xffff_ffff_ffff_ffff)? as u64;
        let has_memory_alarm_in_effect = req_bool(m, "mem_alarm")?;
        let free_disk_space_low_watermark = req_uint(m, "disk_free_limit", 0xffff_ffff_ffff_ffff)? as u64;
        let has_free_disk_space_alarm_in_effect = req_bool(m, "disk_free_alarm")?;
        let rates_mode = req_str(m, "rates_mode")?;
        Ok(ClusterNode { name, uptime, run_queue, processors, os_pid, fd_total, total_erlang_processes, memory_high_watermark, has_memory_alarm_in_effect, free_disk_space_low_watermark, has_free_disk_space_alarm_in_effect, rates_mode })
    }
}

/// A runtime parameter. Legacy payloads may send its value as an array, which
/// reads as the empty value.
#[derive(Debug, Clone, PartialEq)]
pub struct RuntimeParameter {
    pub name: String,
    pub vhost: String,
    pub component: String,
    pub value: RuntimeParameterValue,
}

impl Record for RuntimeParameter {
    open spec fn accepts(m: Map<Seq<char>, JsonValue>) -> bool {
        &&& str_at(m, "name"@) is Some
        &&& str_at(m, "vhost"@) is Some
        &&& str_at(m, "component"@) is Some
        &&& obj_at(m, "value"@) is Some || list_at(m, "value"@) is Some
    }

    open spec fn read_from(self, m: Map<Seq<char>, JsonValue>) -> bool {
        &&& str_at(m, "name"@) == Some(self.name)
        &&& str_at(m, "vhost"@) == Some(self.vhost)
        &&& str_at(m, "component"@) == Some(self.component)
        &&& if obj_at(m, "value"@) is Some { obj_at(m, "value"@) == Some(self.value.0) } else { self.value.0 == JsonMap::Empty }
    }

    fn from_map(m: &JsonMap) -> (r: Result<RuntimeParameter, DecodeError>) {
        let name = req_str(m, "name")?;
        let vhost = req_str(m, "vhost")?;
        let component = req_str(m, "component")?;
        let value = RuntimeParameterValue(obj_or_seq(m, "value")?);
        Ok(RuntimeParameter { name, vhost, component, value })
    }
}

impl Encode for RuntimeParameter {
    open spec fn same(self, other: RuntimeParameter) -> bool {
        &&& self.name == other.name
        &&& self.vhost == other.vhost
        &&& self.component == other.component
        &&& self.value == other.value
    }

    fn to_map(&self) -> (r: JsonMap) {
        proof {
            reveal_strlit("name");
            reveal_strlit("vhost");
            reveal_strlit("component");
            reveal_strlit("value");
            assert("name"@[0] != "vhost"@[0]);
            assert("name"@[0] != "component"@[0]);
            assert("name"@[0] != "value"@[0]);
            assert("vhost"@[0] != "component"@[0]);
            assert("vhost"@[1] != "value"@[1]);
            assert("component"@[0] != "value"@[0]);
        }
        let mut m = JsonMap::new();
        m.insert("name".to_string(), JsonValue::String(self.name.clone()));
        m.insert("vhost".to_string(), JsonValue::String(self.vhost.clone()));
        m.insert("component".to_string(), JsonValue::String(self.component.clone()));
        m.insert("value".to_string(), JsonValue::Object(self.value.0.duplicate()));
        m
    }

    proof fn lemma_read_unique(self, other: RuntimeParameter, m: Map<Seq<char>, JsonValue>) {
    }
}

/// The name of a cluster.
#[derive(Debug, Clone, PartialEq)]
pub struct ClusterIdentity {
    pub name: String,
}

impl Record for ClusterIdentity {
    open spec fn accepts(m: Map<Seq<char>, JsonValue>) -> bool {
        &&& str_at(m, "name"@) is Some
    }

    open spec fn read_from(self, m: Map<Seq<char>, JsonValue>) -> bool {
        &&& str_at(m, "name"@) == Some(self.name)
    }

    fn from_map(m: &JsonMap) -> (r: Result<ClusterIdentity, DecodeError>) {
        let name = req_str(m, "name")?;
        Ok(ClusterIdentity { name })
    }
}

/// A policy.
#[derive(Debug, Clone, PartialEq)]
pub struct Policy {
    pub name: String,
    pub vhost: String,
    pub pattern: String,
    pub apply_to: PolicyTarget,
    pub priority: i16,
    pub definition: PolicyDefinition,
}

impl Record for Policy {
    open spec fn accepts(m: Map<Seq<char>, JsonValue>) -> bool {
        &&& str_at(m, "name"@) is Some
        &&& str_at(m, "vhost"@) is Some
        &&& str_at(m, "pattern"@) is Some
        &&& str_at(m, "apply-to"@) is Some
        &&& int_at(m, "priority"@) is Some && i16::MIN <= int_at(m, "priority"@)->0 <= i16::MAX
        &&& absent_at(m, "definition"@) || obj_at(m, "definition"@) is Some
    }

    open spec fn read_from(self, m: Map<Seq<char>, JsonValue>) -> bool {
        &&& str_at(m, "name"@) == Some(self.name)
        &&& str_at(m, "vhost"@) == Some(self.vhost)
        &&& str_at(m, "pattern"@) == Some(self.pattern)
        &&& str_at(m, "apply-to"@) matches Some(s) && self.apply_to == PolicyTarget::spec_from(s@)
        &&& int_at(m, "priority"@) == Some(self.priority as int)
        &&& match self.definition.0 { None => absent_at(m, "definition"@), Some(d) => obj_at(m, "definition"@) == Some(d) }
    }

    fn from_map(m: &JsonMap) -> (r: Result<Policy, DecodeError>) {
        let name = req_str(m, "name")?;
        let vhost = req_str(m, "vhost")?;
        let pattern = req_str(m, "pattern")?;
        let apply_to = PolicyTarget::from(req_str(m, "apply-to")?.as_str());
        let priority = req_i16(m, "priority")?;
        let definition = PolicyDefinition(opt_obj(m, "definition")?);
        Ok(Policy { name, vhost, pattern, apply_to, priority, definition })
    }
}

impl Encode for Policy {
    open spec fn same(self, other: Policy) -> bool {
        &&& self.name == other.name
        &&& self.vhost == other.vhost
        &&& self.pattern == other.pattern
        &&& self.apply_to == other.apply_to
        &&& self.priority == other.priority
        &&& self.definition == other.definition
    }

    fn to_map(&self) -> (r: JsonMap) {
        proof {
            reveal_strlit("name");
            reveal_strlit("vhost");
            reveal_strlit("pattern");
            reveal_strlit("apply-to");
            reveal_strlit("priority");
            reveal_strlit("definition");
            assert("name"@[0] != "vhost"@[0]);
            assert("name"@[0] != "pattern"@[0]);
            assert("name"@[0] != "apply-to"@[0]);
            assert("name"@[0] != "priority"@[0]);
            assert("name"@[0] != "definition"@[0]);
            assert("vhost"@[0] != "pattern"@[0]);
            assert("vhost"@[0] != "apply-to"@[0]);
            assert("vhost"@[0] != "priority"@[0]);
            assert("vhost"@[0] != "definition"@[0]);
            assert("pattern"@[0] != "apply-to"@[0]);
            assert("pattern"@[1] != "priority"@[1]);
            assert("pattern"@[0] != "definition"@[0]);
            assert("apply-to"@[0] != "priority"@[0]);
            assert("apply-to"@[0] != "definition"@[0]);
            assert("priority"@[0] != "definition"@[0]);
            lemma_policy_target_round_trip(self.apply_to);
        }
        let mut m = JsonMap::new();
        m.insert("name".to_string(), JsonValue::String(self.name.clone()));
        m.insert("vhost".to_string(), JsonValue::String(self.vhost.clone()));
        m.insert("pattern".to_string(), JsonValue::String(self.pattern.clone()));
        m.insert("apply-to".to_string(), JsonValue::String(self.apply_to.to_wire()));
        m.insert("priority".to_string(), int_value(self.priority as i64));
        let d = match &self.definition.0 {
            Some(d) => JsonValue::Object(d.duplicate()),
            None => JsonValue::Null,
        };
        m.insert("definition".to_string(), d);
        m
    }

    proof fn lemma_read_unique(self, other: Policy, m: Map<Seq<char>, JsonValue>) {
    }
}

/// A user's permissions in a virtual host.
#[derive(Debug, Clone, PartialEq)]
pub struct Permissions {
    pub user: String,
    pub vhost: String,
    pub configure: String,
    pub read: String,
    pub write: String,
}

impl Record for Permissions {
    open spec fn accepts(m: Map<Seq<char>, JsonValue>) -> bool {
        &&& str_at(m, "user"@) is Some
        &&& str_at(m, "vhost"@) is Some
        &&& str_at(m, "configure"@) is Some
        &&& str_at(m, "read"@) is Some
        &&& str_at(m, "write"@) is Some
    }

    open spec fn read_from(self, m: Map<Seq<char>, JsonValue>) -> bool {
        &&& str_at(m, "user"@) == Some(self.user)
        &&& str_at(m, "vhost"@) == Some(self.vhost)
        &&& str_at(m, "configure"@) == Some(self.configure)
        &&& str_at(m, "read"@) == Some(self.read)
        &&& str_at(m, "write"@) == Some(self.write)
    }

    fn from_map(m: &JsonMap) -> (r: Result<Permissions, DecodeError>) {
        let user = req_str(m, "user")?;
        let vhost = req_str(m, "vhost")?;
        let configure = req_str(m, "configure")?;
        let read = req_str(m, "read")?;
        let write = req_str(m, "write")?;
        Ok(Permissions { user, vhost, configure, read, write })
    }
}

impl Encode for Permissions {
    open spec fn same(self, other: Permissions) -> bool {
        &&& self.user == other.user
        &&& self.vhost == other.vhost
        &&& self.configure == other.configure
        &&& self.read == other.read
        &&& self.write == other.write
    }

    fn to_map(&self) -> (r: JsonMap) {
        proof {
            reveal_strlit("user");
            reveal_strlit("vhost");
            reveal_strlit("configure");
            reveal_strlit("read");
            reveal_strlit("write");
            assert("user"@[0] != "vhost"@[0]);
            assert("user"@[0] != "configure"@[0]);
            assert("user"@[0] != "read"@[0]);
            assert("user"@[0] != "write"@[0]);
            assert("vhost"@[0] != "configure"@[0]);
            assert("vhost"@[0] != "read"@[0]);
            assert("vhost"@[0] != "write"@[0]);
            assert("configure"@[0] != "read"@[0]);
            assert("configure"@[0] != "write"@[0]);
            assert("read"@[0] != "write"@[0]);
        }
        let mut m = JsonMap::new();
        m.insert("user".to_string(), JsonValue::String(self.user.clone()));
        m.insert("vhost".to_string(), JsonValue::String(self.vhost.clone()));
        m.insert("configure".to_string(), JsonValue::String(self.configure.clone()));
        m.insert("read".to_string(), JsonValue::String(self.read.clone()));
        m.insert("write".to_string(), JsonValue::String(self.write.clone()));
        m
    }

    proof fn lemma_read_unique(self, other: Permissions, m: Map<Seq<char>, JsonValue>) {
    }
}

/// The definitions of a cluster, as exported for backup and imported to restore.
#[derive(Debug, Clone, PartialEq)]
pub struct DefinitionSet {
    pub server_version: String,
    pub users: Vec<User>,
    pub virtual_hosts: Vec<VirtualHost>,
    pub permissions: Vec<Permissions>,
    pub parameters: Vec<RuntimeParameter>,
    pub policies: Vec<Policy>,
    pub queues: Vec<QueueDefinition>,
    pub exchanges: Vec<ExchangeInfo>,
    pub bindings: Vec<BindingInfo>,
}

impl Record for DefinitionSet {
    open spec fn accepts(m: Map<Seq<char>, JsonValue>) -> bool {
        &&& str_at(m, "rabbitmq_version"@) is Some
        &&& list_at(m, "users"@) matches Some(l) && accepts_list::<User>(l)
        &&& list_at(m, "vhosts"@) matches Some(l) && accepts_list::<VirtualHost>(l)
        &&& list_at(m, "permissions"@) matches Some(l) && accepts_list::<Permissions>(l)
        &&& list_at(m, "parameters"@) matches Some(l) && accepts_list::<RuntimeParameter>(l)
        &&& list_at(m, "policies"@) matches Some(l) && accepts_list::<Policy>(l)
        &&& list_at(m, "queues"@) matches Some(l) && accepts_list::<QueueDefinition>(l)
        &&& list_at(m, "exchanges"@) matches Some(l) && accepts_list::<ExchangeInfo>(l)
        &&& list_at(m, "bindings"@) matches Some(l) && accepts_list::<BindingInfo>(l)
    }

    open spec fn read_from(self, m: Map<Seq<char>, JsonValue>) -> bool {
        &&& str_at(m, "rabbitmq_version"@) == Some(self.server_version)
        &&& list_at(m, "users"@) matches Some(l) && reads_list(self.users@, l)
        &&& list_at(m, "vhosts"@) matches Some(l) && reads_list(self.virtual_hosts@, l)
        &&& list_at(m, "permissions"@) matches Some(l) && reads_list(self.permissions@, l)
        &&& list_at(m, "parameters"@) matches Some(l) && reads_list(self.parameters@, l)
        &&& list_at(m, "policies"@) matches Some(l) && reads_list(self.policies@, l)
        &&& list_at(m, "queues"@) matches Some(l) && reads_list(self.queues@, l)
        &&& list_at(m, "exchanges"@) matches Some(l) && reads_list(self.exchanges@, l)
        &&& list_at(m, "bindings"@) matches Some(l) && reads_list(self.bindings@, l)
    }

    fn from_map(m: &JsonMap) -> (r: Result<DefinitionSet, DecodeError>) {
        let server_version = req_str(m, "rabbitmq_version")?;
        let users = records_at::<User>(m, "users")?;
        let virtual_hosts = records_at::<VirtualHost>(m, "vhosts")?;
        let permissions = records_at::<Permissions>(m, "permissions")?;
        let parameters = records_at::<RuntimeParameter>(m, "parameters")?;
        let policies = records_at::<Policy>(m, "policies")?;
        let queues = records_at::<QueueDefinition>(m, "queues")?;
        let exchanges = records_at::<ExchangeInfo>(m, "exchanges")?;
        let bindings = records_at::<BindingInfo>(m, "bindings")?;
        Ok(DefinitionSet { server_version, users, virtual_hosts, permissions, parameters, policies, queues, exchanges, bindings })
    }
}

impl Encode for DefinitionSet {
    open spec fn same(self, other: DefinitionSet) -> bool {
        &&& self.server_version == other.server_version
        &&& same_seq(self.users@, other.users@)
        &&& same_seq(self.virtual_hosts@, other.virtual_hosts@)
        &&& same_seq(self.permissions@, other.permissions@)
        &&& same_seq(self.parameters@, other.parameters@)
        &&& same_seq(self.policies@, other.policies@)
        &&& same_seq(self.queues@, other.queues@)
        &&& same_seq(self.exchanges@, other.exchanges@)
        &&& same_seq(self.bindings@, other.bindings@)
    }

    fn to_map(&self) -> (r: JsonMap) {
        proof {
            reveal_strlit("rabbitmq_version");
            reveal_strlit("users");
            reveal_strlit("vhosts");
            reveal_strlit("permissions");
            reveal_strlit("parameters");
            reveal_strlit("policies");
            reveal_strlit("queues");
            reveal_strlit("exchanges");
            reveal_strlit("bindings");
            assert("rabbitmq_version"@[0] != "users"@[0]);
            assert("rabbitmq_version"@[0] != "vhosts"@[0]);
            assert("rabbitmq_version"@[0] != "permissions"@[0]);
            assert("rabbitmq_version"@[0] != "parameters"@[0]);
            assert("rabbitmq_version"@[0] != "policies"@[0]);
            assert("rabbitmq_version"@[0] != "queues"@[0]);
            assert("rabbitmq_version"@[0] != "exchanges"@[0]);
            assert("rabbitmq_version"@[0] != "bindings"@[0]);
            assert("users"@[0] != "vhosts"@[0]);
            assert("users"@[0] != "permissions"@[0]);
            assert("users"@[0] != "parameters"@[0]);
            assert("users"@[0] != "policies"@[0]);
            assert("users"@[0] != "queues"@[0]);
            assert("users"@[0] != "exchanges"@[0]);
            assert("users"@[0] != "bindings"@[0]);
            assert("vhosts"@[0] != "permissions"@[0]);
            assert("vhosts"@[0] != "parameters"@[0]);
            assert("vhosts"@[0] != "policies"@[0]);
            assert("vhosts"@[0] != "queues"@[0]);
            assert("vhosts"@[0] != "exchanges"@[0]);
            assert("vhosts"@[0] != "bindings"@[0]);
            assert("permissions"@[1] != "parameters"@[1]);
            assert("permissions"@[1] != "policies"@[1]);
            assert("permissions"@[0] != "queues"@[0]);
            assert("permissions"@[0] != "exchanges"@[0]);
            assert("permissions"@[0] != "bindings"@[0]);
            assert("parameters"@[1] != "policies"@[1]);
            assert("parameters"@[0] != "queues"@[0]);
            assert("parameters"@[0] != "exchanges"@[0]);
            assert("parameters"@[0] != "bindings"@[0]);
            assert("policies"@[0] != "queues"@[0]);
            assert("policies"@[0] != "exchanges"@[0]);
            assert("policies"@[0] != "bindings"@[0]);
            assert("queues"@[0] != "exchanges"@[0]);
            assert("queues"@[0] != "bindings"@[0]);
            assert("exchanges"@[0] != "bindings"@[0]);
        }
        let mut m = JsonMap::new();
        m.insert("rabbitmq_version".to_string(), JsonValue::String(self.server_version.clone()));
        m.insert("users".to_string(), JsonValue::Array(encode_list(&self.users)));
        m.insert("vhosts".to_string(), JsonValue::Array(encode_list(&self.virtual_hosts)));
        m.insert("permissions".to_string(), JsonValue::Array(encode_list(&self.permissions)));
        m.insert("parameters".to_string(), JsonValue::Array(encode_list(&self.parameters)));
        m.insert("policies".to_string(), JsonValue::Array(encode_list(&self.policies)));
        m.insert("queues".to_string(), JsonValue::Array(encode_list(&self.queues)));
        m.insert("exchanges".to_string(), JsonValue::Array(encode_list(&self.exchanges)));
        m.insert("bindings".to_string(), JsonValue::Array(encode_list(&self.bindings)));
        m
    }

    proof fn lemma_read_unique(self, other: DefinitionSet, m: Map<Seq<char>, JsonValue>) {
        lemma_reads_list_unique(self.users@, other.users@, list_at(m, "users"@)->0);
        lemma_reads_list_unique(self.virtual_hosts@, other.virtual_hosts@, list_at(m, "vhosts"@)->0);
        lemma_reads_list_unique(self.permissions@, other.permissions@, list_at(m, "permissions"@)->0);
        lemma_reads_list_unique(self.parameters@, other.parameters@, list_at(m, "parameters"@)->0);
        lemma_reads_list_unique(self.policies@, other.policies@, list_at(m, "policies"@)->0);
        lemma_reads_list_unique(self.queues@, other.queues@, list_at(m, "queues"@)->0);
        lemma_reads_list_unique(self.exchanges@, other.exchanges@, list_at(m, "exchanges"@)->0);
        lemma_reads_list_unique(self.bindings@, other.bindings@, list_at(m, "bindings"@)->0);
    }
}

/// Evidence of a failed cluster-wide alarm check.
#[derive(Debug, Clone, PartialEq)]
pub struct ClusterAlarmCheckDetails {
    pub reason: String,
    pub alarms: Vec<ResourceAlarm>,
}

impl Record for ClusterAlarmCheckDetails {
    open spec fn accepts(m: Map<Seq<char>, JsonValue>) -> bool {
        &&& str_at(m, "reason"@) is Some
        &&& list_at(m, "alarms"@) matches Some(l) && accepts_list::<ResourceAlarm>(l)
    }

    open spec fn read_from(self, m: Map<Seq<char>, JsonValue>) -> bool {
        &&& str_at(m, "reason"@) == Some(self.reason)
        &&& list_at(m, "alarms"@) matches Some(l) && reads_list(self.alarms@, l)
    }

    fn from_map(m: &JsonMap) -> (r: Result<ClusterAlarmCheckDetails, DecodeError>) {
        let reason = req_str(m, "reason")?;
        let alarms = records_at::<ResourceAlarm>(m, "alarms")?;
        Ok(ClusterAlarmCheckDetails { reason, alarms })
    }
}

/// A resource alarm in effect on a node.
#[derive(Debug, Clone, PartialEq)]
pub struct ResourceAlarm {
    pub node: String,
    pub resource: String,
}

impl Record for ResourceAlarm {
    open spec fn accepts(m: Map<Seq<char>, JsonValue>) -> bool {
        &&& str_at(m, "node"@) is Some
        &&& str_at(m, "resource"@) is Some
    }

    open spec fn read_from(self, m: Map<Seq<char>, JsonValue>) -> bool {
        &&& str_at(m, "node"@) == Some(self.node)
        &&& str_at(m, "resource"@) == Some(self.resource)
    }

    fn from_map(m: &JsonMap) -> (r: Result<ResourceAlarm, DecodeError>) {
        let node = req_str(m, "node")?;
        let resource = req_str(m, "resource")?;
        Ok(ResourceAlarm { node, resource })
    }
}

/// Evidence of a failed quorum-criticality check.
#[derive(Debug, Clone, PartialEq)]
pub struct QuorumCriticalityCheckDetails {
    pub reason: String,
    pub queues: Vec<QuorumEndangeredQueue>,
}

impl Record for QuorumCriticalityCheckDetails {
    open spec fn accepts(m: Map<Seq<char>, JsonValue>) -> bool {
        &&& str_at(m, "reason"@) is Some
        &&& list_at(m, "queues"@) matches Some(l) && accepts_list::<QuorumEndangeredQueue>(l)
    }

    open spec fn read_from(self, m: Map<Seq<char>, JsonValue>) -> bool {
        &&& str_at(m, "reason"@) == Some(self.reason)
        &&& list_at(m, "queues"@) matches Some(l) && reads_list(self.queues@, l)
    }

    fn from_map(m: &JsonMap) -> (r: Result<QuorumCriticalityCheckDetails, DecodeError>) {
        let reason = req_str(m, "reason")?;
        let queues = records_at::<QuorumEndangeredQueue>(m, "queues")?;
        Ok(QuorumCriticalityCheckDetails { reason, queues })
    }
}

/// A queue that would lose its quorum.
#[derive(Debug, Clone, PartialEq)]
pub struct QuorumEndangeredQueue {
    pub name: String,
    pub vhost: String,
    pub queue_type: String,
}

impl Record for QuorumEndangeredQueue {
    open spec fn accepts(m: Map<Seq<char>, JsonValue>) -> bool {
        &&& str_at(m, "name"@) is Some
        &&& str_at(m, "virtual_host"@) is Some
        &&& str_at(m, "type"@) is Some
    }

    open spec fn read_from(self, m: Map<Seq<char>, JsonValue>) -> bool {
        &&& str_at(m, "name"@) == Some(self.name)
        &&& str_at(m, "virtual_host"@) == Some(self.vhost)
        &&& str_at(m, "type"@) == Some(self.queue_type)
    }

    fn from_map(m: &JsonMap) -> (r: Result<QuorumEndangeredQueue, DecodeError>) {
        let name = req_str(m, "name")?;
        let vhost = req_str(m, "virtual_host")?;
        let queue_type = req_str(m, "type")?;
        Ok(QuorumEndangeredQueue { name, vhost, queue_type })
    }
}

/// A message fetched from a queue. Legacy payloads may send its properties as
/// an array, which reads as no properties.
#[derive(Debug, Clone, PartialEq)]
pub struct GetMessage {
    pub payload_bytes: u32,
    pub redelivered: bool,
    pub exchange: String,
    pub routing_key: String,
    pub message_count: u32,
    pub properties: MessageProperties,
    pub payload: String,
    pub payload_encoding: String,
}

impl Record for GetMessage {
    open spec fn accepts(m: Map<Seq<char>, JsonValue>) -> bool {
        &&& uint_at(m, "payload_bytes"@) is Some && uint_at(m, "payload_bytes"@)->0 <= 0xffff_ffff
        &&& bool_at(m, "redelivered"@) is Some
        &&& str_at(m, "exchange"@) is Some
        &&& str_at(m, "routing_key"@) is Some
        &&& uint_at(m, "message_count"@) is Some && uint_at(m, "message_count"@)->0 <= 0xffff_ffff
        &&& obj_at(m, "properties"@) is Some || list_at(m, "properties"@) is Some
        &&& str_at(m, "payload"@) is Some
        &&& str_at(m, "payload_encoding"@) is Some
    }

    open spec fn read_from(self, m: Map<Seq<char>, JsonValue>) -> bool {
        &&& uint_at(m, "payload_bytes"@) == Some(self.payload_bytes as u64)
        &&& bool_at(m, "redelivered"@) == Some(self.redelivered)
        &&& str_at(m, "exchange"@) == Some(self.exchange)
        &&& str_at(m, "routing_key"@) == Some(self.routing_key)
        &&& uint_at(m, "message_count"@) == Some(self.message_count as u64)
        &&& if obj_at(m, "properties"@) is Some { obj_at(m, "properties"@) == Some(self.properties.0) } else { self.properties.0 == JsonMap::Empty }
        &&& str_at(m, "payload"@) == Some(self.payload)
        &&& str_at(m, "payload_encoding"@) == Some(self.payload_encoding)
    }

    fn from_map(m: &JsonMap) -> (r: Result<GetMessage, DecodeError>) {
        let payload_bytes = req_uint(m, "payload_bytes", 0xffff_ffff)? as u32;
        let redelivered = req_bool(m, "redelivered")?;
        let exchange = req_str(m, "exchange")?;
        let routing_key = req_str(m, "routing_key")?;
        let message_count = req_uint(m, "message_count", 0xffff_ffff)? as u32;
        let properties = MessageProperties(obj_or_seq(m, "properties")?);
        let payload = req_str(m, "payload")?;
        let payload_encoding = req_str(m, "payload_encoding")?;
        Ok(GetMessage { payload_bytes, redelivered, exchange, routing_key, message_count, properties, payload, payload_encoding })
    }
}

/// Whether a published message was routed.
#[derive(Debug, Clone, PartialEq)]
pub struct MessageRouted {
    pub routed: bool,
}

impl Record for MessageRouted {
    open spec fn accepts(m: Map<Seq<char>, JsonValue>) -> bool {
        &&& bool_at(m, "routed"@) is Some
    }

    open spec fn read_from(self, m: Map<Seq<char>, JsonValue>) -> bool {
        &&& bool_at(m, "routed"@) == Some(self.routed)
    }

    fn from_map(m: &JsonMap) -> (r: Result<MessageRouted, DecodeError>) {
        let routed = req_bool(m, "routed")?;
        Ok(MessageRouted { routed })
    }
}

/// Counts of objects opened and closed.
#[derive(Debug, Clone, PartialEq)]
pub struct ChurnRates {
    pub connection_created: u32,
    pub connection_closed: u32,
    pub queue_declared: u32,
    pub queue_created: u32,
    pub queue_deleted: u32,
    pub channel_created: u32,
    pub channel_closed: u32,
}

impl Record for ChurnRates {
    open spec fn accepts(m: Map<Seq<char>, JsonValue>) -> bool {
        &&& uint_at(m, "connection_created"@) is Some && uint_at(m, "connection_created"@)->0 <= 0xffff_ffff
        &&& uint_at(m, "connection_closed"@) is Some && uint_at(m, "connection_closed"@)->0 <= 0xffff_ffff
        &&& uint_at(m, "queue_declared"@) is Some && uint_at(m, "queue_declared"@)->0 <= 0xffff_ffff
        &&& uint_at(m, "queue_created"@) is Some && uint_at(m, "queue_created"@)->0 <= 0xffff_ffff
        &&& uint_at(m, "queue_deleted"@) is Some && uint_at(m, "queue_deleted"@)->0 <= 0xffff_ffff
        &&& uint_at(m, "channel_created"@) is Some && uint_at(m, "channel_created"@)->0 <= 0xffff_ffff
        &&& uint_at(m, "channel_closed"@) is Some && uint_at(m, "channel_closed"@)->0 <= 0xffff_ffff
    }

    open spec fn read_from(self, m: Map<Seq<char>, JsonValue>) -> bool {
        &&& uint_at(m, "connection_created"@) == Some(self.connection_created as u64)
        &&& uint_at(m, "connection_closed"@) == Some(self.connection_closed as u64)
        &&& uint_at(m, "queue_declared"@) == Some(self.queue_declared as u64)
        &&& uint_at(m, "queue_created"@) == Some(self.queue_created as u64)
        &&& uint_at(m, "queue_deleted"@) == Some(self.queue_deleted as u64)
        &&& uint_at(m, "channel_created"@) == Some(self.channel_created as u64)
        &&& uint_at(m, "channel_closed"@) == Some(self.channel_closed as u64)
    }

    fn from_map(m: &JsonMap) -> (r: Result<ChurnRates, DecodeError>) {
        let connection_created = req_uint(m, "connection_created", 0xffff_ffff)? as u32;
        let connection_closed = req_uint(m, "connection_closed", 0xffff_ffff)? as u32;
        let queue_declared = req_uint(m, "queue_declared", 0xffff_ffff)? as u32;
        let queue_created = req_uint(m, "queue_created", 0xffff_ffff)? as u32;
        let queue_deleted = req_uint(m, "queue_deleted", 0xffff_ffff)? as u32;
        let channel_created = req_uint(m, "channel_created", 0xffff_ffff)? as u32;
        let channel_closed = req_uint(m, "channel_closed", 0xffff_ffff)? as u32;
        Ok(ChurnRates { connection_created, connection_closed, queue_declared, queue_created, queue_deleted, channel_created, channel_closed })
    }
}

/// Counts of objects in the cluster.
#[derive(Debug, Clone, PartialEq)]
pub struct ObjectTotals {
    pub connections: u64,
    pub channels: u64,
    pub queues: u64,
    pub exchanges: u64,
}

impl Record for ObjectTotals {
    open spec fn accepts(m: Map<Seq<char>, JsonValue>) -> bool {
        &&& uint_at(m, "connections"@) is Some && uint_at(m, "connections"@)->0 <= 0xffff_ffff_ffff_ffff
        &&& uint_at(m, "channels"@) is Some && uint_at(m, "channels"@)->0 <= 0xffff_ffff_ffff_ffff
        &&& uint_at(m, "queues"@) is Some && uint_at(m, "queues"@)->0 <= 0xffff_ffff_ffff_ffff
        &&& uint_at(m, "exchanges"@) is Some && uint_at(m, "exchanges"@)->0 <= 0xffff_ffff_ffff_ffff
    }

    open spec fn read_from(self, m: Map<Seq<char>, JsonValue>) -> bool {
        &&& uint_at(m, "connections"@) == Some(self.connections as u64)
        &&& uint_at(m, "channels"@) == Some(self.channels as u64)
        &&& uint_at(m, "queues"@) == Some(self.queues as u64)
        &&& uint_at(m, "exchanges"@) == Some(self.exchanges as u64)
    }

    fn from_map(m: &JsonMap) -> (r: Result<ObjectTotals, DecodeError>) {
        let connections = req_uint(m, "connections", 0xffff_ffff_ffff_ffff)? as u64;
        let channels = req_uint(m, "channels", 0xffff_ffff_ffff_ffff)? as u64;
        let queues = req_uint(m, "queues", 0xffff_ffff_ffff_ffff)? as u64;
        let exchanges = req_uint(m, "exchanges", 0xffff_ffff_ffff_ffff)? as u64;
        Ok(ObjectTotals { connections, channels, queues, exchanges })
    }
}

/// A listener of a node.
#[derive(Debug, Clone, PartialEq)]
pub struct Listener {
    pub node: String,
    pub protocol: String,
    pub port: u32,
    pub interface: String,
}

impl Record for Listener {
    open spec fn accepts(m: Map<Seq<char>, JsonValue>) -> bool {
        &&& str_at(m, "node"@) is Some
        &&& str_at(m, "protocol"@) is Some
        &&& uint_at(m, "port"@) is Some && uint_at(m, "port"@)->0 <= 0xffff_ffff
        &&& str_at(m, "ip_address"@) is Some
    }

    open spec fn read_from(self, m: Map<Seq<char>, JsonValue>) -> bool {
        &&& str_at(m, "node"@) == Some(self.node)
        &&& str_at(m, "protocol"@) == Some(self.protocol)
        &&& uint_at(m, "port"@) == Some(self.port as u64)
        &&& str_at(m, "ip_address"@) == Some(self.interface)
    }

    fn from_map(m: &JsonMap) -> (r: Result<Listener, DecodeError>) {
        let node = req_str(m, "node")?;
        let protocol = req_str(m, "protocol")?;
        let port = req_uint(m, "port", 0xffff_ffff)? as u32;
        let interface = req_str(m, "ip_address")?;
        Ok(Listener { node, protocol, port, interface })
    }
}

/// An overview of the cluster. Tag maps are not reported by older servers.
#[derive(Debug, Clone, PartialEq)]
pub struct Overview {
    pub cluster_name: String,
    pub node: String,
    pub erlang_full_version: String,
    pub erlang_version: String,
    pub rabbitmq_version: String,
    pub product_name: String,
    pub product_version: String,
    pub cluster_tags: Option<TagMap>,
    pub node_tags: Option<TagMap>,
    pub statistics_db_event_queue: u64,
    pub churn_rates: ChurnRates,
}

impl Record for Overview {
    open spec fn accepts(m: Map<Seq<char>, JsonValue>) -> bool {
        &&& str_at(m, "cluster_name"@) is Some
        &&& str_at(m, "node"@) is Some
        &&& str_at(m, "erlang_full_version"@) is Some
        &&& str_at(m, "erlang_version"@) is Some
        &&& str_at(m, "rabbitmq_version"@) is Some
        &&& str_at(m, "product_name"@) is Some
        &&& str_at(m, "product_version"@) is Some
        &&& absent_at(m, "cluster_tags"@) || obj_at(m, "cluster_tags"@) is Some
        &&& absent_at(m, "node_tags"@) || obj_at(m, "node_tags"@) is Some
        &&& uint_at(m, "statistics_db_event_queue"@) is Some && uint_at(m, "statistics_db_event_queue"@)->0 <= 0xffff_ffff_ffff_ffff
        &&& obj_at(m, "churn_rates"@) matches Some(o) && ChurnRates::accepts(o@)
    }

    open spec fn read_from(self, m: Map<Seq<char>, JsonValue>) -> bool {
        &&& str_at(m, "cluster_name"@) == Some(self.cluster_name)
        &&& str_at(m, "node"@) == Some(self.node)
        &&& str_at(m, "erlang_full_version"@) == Some(self.erlang_full_version)
        &&& str_at(m, "erlang_version"@) == Some(self.erlang_version)
        &&& str_at(m, "rabbitmq_version"@) == Some(self.rabbitmq_version)
        &&& str_at(m, "product_name"@) == Some(self.product_name)
        &&& str_at(m, "product_version"@) == Some(self.product_version)
        &&& match self.cluster_tags { None => absent_at(m, "cluster_tags"@), Some(t) => obj_at(m, "cluster_tags"@) == Some(t.0) }
        &&& match self.node_tags { None => absent_at(m, "node_tags"@), Some(t) => obj_at(m, "node_tags"@) == Some(t.0) }
        &&& uint_at(m, "statistics_db_event_queue"@) == Some(self.statistics_db_event_queue as u64)
        &&& obj_at(m, "churn_rates"@) matches Some(o) && self.churn_rates.read_from(o@)
    }

    fn from_map(m: &JsonMap) -> (r: Result<Overview, DecodeError>) {
        let cluster_name = req_str(m, "cluster_name")?;
        let node = req_str(m, "node")?;
        let erlang_full_version = req_str(m, "erlang_full_version")?;
        let erlang_version = req_str(m, "erlang_version")?;
        let rabbitmq_version = req_str(m, "rabbitmq_version")?;
        let product_name = req_str(m, "product_name")?;
        let product_version = req_str(m, "product_version")?;
        let cluster_tags = match opt_obj(m, "cluster_tags")? {
            Some(o) => Some(TagMap(o)),
            None => None,
        };
        let node_tags = match opt_obj(m, "node_tags")? {
            Some(o) => Some(TagMap(o)),
            None => None,
        };
        let statistics_db_event_queue = req_uint(m, "statistics_db_event_queue", 0xffff_ffff_ffff_ffff)? as u64;
        let churn_rates = record_at::<ChurnRates>(m, "churn_rates")?;
        Ok(Overview { cluster_name, node, erlang_full_version, erlang_version, rabbitmq_version, product_name, product_version, cluster_tags, node_tags, statistics_db_event_queue, churn_rates })
    }
}

/// A message whose property bag arrives as an array decodes exactly when it would
/// with an empty bag in its place, and its properties then read as empty.
pub proof fn lemma_message_properties_as_sequence(
    m: Map<Seq<char>, JsonValue>,
    l: JsonList,
    x: GetMessage,
)
    ensures
        GetMessage::accepts(m.insert("properties"@, JsonValue::Array(l))) == GetMessage::accepts(
            m.insert("properties"@, JsonValue::Object(JsonMap::Empty)),
        ),
        x.read_from(m.insert("properties"@, JsonValue::Array(l))) ==> x.properties.0@
            == Map::<Seq<char>, JsonValue>::empty(),
{
    reveal_strlit("properties");
    reveal_strlit("payload_bytes");
    reveal_strlit("redelivered");
    reveal_strlit("exchange");
    reveal_strlit("routing_key");
    reveal_strlit("message_count");
    reveal_strlit("payload");
    reveal_strlit("payload_encoding");
    assert("properties"@[1] != "payload_bytes"@[1]);
    assert("properties"@[0] != "redelivered"@[0]);
    assert("properties"@[0] != "exchange"@[0]);
    assert("properties"@[0] != "routing_key"@[0]);
    assert("properties"@[0] != "message_count"@[0]);
    assert("properties"@[1] != "payload"@[1]);
    assert("properties"@[1] != "payload_encoding"@[1]);
}

/// A runtime parameter whose value arrives as an array decodes exactly when it
/// would with an empty value in its place, and its value then reads as empty.
pub proof fn lemma_parameter_value_as_sequence(
    m: Map<Seq<char>, JsonValue>,
    l: JsonList,
    x: RuntimeParameter,
)
    ensures
        RuntimeParameter::accepts(m.insert("value"@, JsonValue::Array(l)))
            == RuntimeParameter::accepts(m.insert("value"@, JsonValue::Object(JsonMap::Empty))),
        x.read_from(m.insert("value"@, JsonValue::Array(l))) ==> x.value.0@ == Map::<
            Seq<char>,
            JsonValue,
        >::empty(),
{
    reveal_strlit("value");
    reveal_strlit("name");
    reveal_strlit("vhost");
    reveal_strlit("component");
    assert("value"@[0] != "name"@[0]);
    assert("value"@[1] != "vhost"@[1]);
    assert("value"@[0] != "component"@[0]);
}

/// A queue record without leader, members and online nodes decodes with all three
/// absent.
pub proof fn lemma_queue_replicas_absent(m: Map<Seq<char>, JsonValue>, x: QueueInfo)
    requires
        !m.contains_key("leader"@),
        !m.contains_key("members"@),
        !m.contains_key("online"@),
        x.read_from(m),
    ensures
        x.leader is None,
        x.members is None,
        x.online is None,
{
}

/// Whether a queue record decodes does not depend on the kind that it names, so
/// a classic queue that reports replica fields decodes as a quorum queue would.
pub proof fn lemma_queue_kind_irrelevant(m: Map<Seq<char>, JsonValue>, t: String)
    requires
        str_at(m, "type"@) is Some,
    ensures
        QueueInfo::accepts(m) == QueueInfo::accepts(m.insert("type"@, JsonValue::String(t))),
{
    reveal_strlit("type");
    reveal_strlit("name");
    reveal_strlit("vhost");
    reveal_strlit("durable");
    reveal_strlit("auto_delete");
    reveal_strlit("exclusive");
    reveal_strlit("arguments");
    reveal_strlit("node");
    reveal_strlit("state");
    reveal_strlit("leader");
    reveal_strlit("members");
    reveal_strlit("online");
    reveal_strlit("memory");
    reveal_strlit("consumers");
    reveal_strlit("consumer_utilisation");
    reveal_strlit("exclusive_consumer_tag");
    reveal_strlit("policy");
    reveal_strlit("message_bytes");
    reveal_strlit("message_bytes_persistent");
    reveal_strlit("message_bytes_ram");
    reveal_strlit("message_bytes_ready");
    reveal_strlit("message_bytes_unacknowledged");
    reveal_strlit("messages");
    reveal_strlit("messages_persistent");
    reveal_strlit("messages_ram");
    reveal_strlit("messages_unacknowledged");
    assert("type"@[0] != "name"@[0]);
    assert("type"@[0] != "vhost"@[0]);
    assert("type"@[0] != "durable"@[0]);
    assert("type"@[0] != "auto_delete"@[0]);
    assert("type"@[0] != "exclusive"@[0]);
    assert("type"@[0] != "arguments"@[0]);
    assert("type"@[0] != "node"@[0]);
    assert("type"@[0] != "state"@[0]);
    assert("type"@[0] != "leader"@[0]);
    assert("type"@[0] != "members"@[0]);
    assert("type"@[0] != "online"@[0]);
    assert("type"@[0] != "memory"@[0]);
    assert("type"@[0] != "consumers"@[0]);
    assert("type"@[0] != "consumer_utilisation"@[0]);
    assert("type"@[0] != "exclusive_consumer_tag"@[0]);
    assert("type"@[0] != "policy"@[0]);
    assert("type"@[0] != "message_bytes"@[0]);
    assert("type"@[0] != "message_bytes_persistent"@[0]);
    assert("type"@[0] != "message_bytes_ram"@[0]);
    assert("type"@[0] != "message_bytes_ready"@[0]);
    assert("type"@[0] != "message_bytes_unacknowledged"@[0]);
    assert("type"@[0] != "messages"@[0]);
    assert("type"@[0] != "messages_persistent"@[0]);
    assert("type"@[0] != "messages_ram"@[0]);
    assert("type"@[0] != "messages_unacknowledged"@[0]);
}

/// Encoding a definition set and decoding the result gives the same definitions:
/// every field survives the trip.
pub proof fn lemma_definition_set_round_trip(d: DefinitionSet, encoded: JsonMap, back: DefinitionSet)
    requires
        d.read_from(encoded@),
        back.read_from(encoded@),
    ensures
        back.same(d),
{
    back.lemma_read_unique(d, encoded@);
}

} // verus!
