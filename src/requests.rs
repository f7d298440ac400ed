use vstd::prelude::*;

use crate::commons::{ExchangeType, PolicyTarget, QueueType, UserLimitTarget, VirtualHostLimitTarget};
use crate::fields::{bool_at, int_json, int_value, list_at, obj_at, str_at};
use crate::json::{JsonList, JsonMap, JsonValue};

verus! {

/// Optional arguments of a queue or an exchange.
pub type XArguments = Option<JsonMap>;

/// The argument key that carries a queue's kind.
pub const QUEUE_TYPE_KEY: &'static str = "x-queue-type";

/// The members that optional arguments hold; none where there are no arguments.
pub open spec fn args_view(a: XArguments) -> Map<Seq<char>, JsonValue> {
    match a {
        Some(m) => m@,
        None => Map::empty(),
    }
}

/// `v` is the string `s`.
pub open spec fn is_text(v: JsonValue, s: Seq<char>) -> bool {
    v matches JsonValue::String(t) && t@ == s
}

/// `m` holds the string `s` under `k`.
pub open spec fn text_at(m: Map<Seq<char>, JsonValue>, k: Seq<char>, s: Seq<char>) -> bool {
    m.contains_key(k) && is_text(m[k], s)
}

fn text(s: &str) -> (r: JsonValue)
    ensures
        is_text(r, s@),
{
    JsonValue::String(s.to_string())
}

/// Properties of a virtual host to be created or updated.
pub struct VirtualHostParams<'a> {
    /// Virtual host name
    pub name: &'a str,
    /// Optional description, e.g. what purpose does this virtual host serve?
    pub description: Option<&'a str>,
    /// A list of virtual host tags
    pub tags: Option<Vec<&'a str>>,
    /// The queue kind that clients get when they name none
    pub default_queue_type: Option<QueueType>,
    pub tracing: bool,
}

impl<'a> VirtualHostParams<'a> {
    /// Parameters of a virtual host with only a name.
    pub fn named(name: &'a str) -> (r: Self)
        ensures
            r.name == name,
            r.description is None,
            r.tags is None,
            r.default_queue_type is None,
            !r.tracing,
    {
        VirtualHostParams {
            name,
            description: None,
            tags: None,
            default_queue_type: None,
            tracing: false,
        }
    }

    /// The payload that declares this virtual host. Absent options are left out.
    pub fn to_json(&self) -> (r: JsonMap)
        ensures
            text_at(r@, "name"@, self.name@),
            r@.contains_key("description"@) <==> self.description is Some,
            self.description matches Some(d) ==> text_at(r@, "description"@, d@),
            r@.contains_key("tags"@) <==> self.tags is Some,
            self.tags matches Some(t) ==> list_at(r@, "tags"@) matches Some(l) && l.elems().len()
                == t@.len() && forall|i: int|
                0 <= i < t@.len() ==> is_text(#[trigger] l.elems()[i], t@[i]@),
            r@.contains_key("default_queue_type"@) <==> self.default_queue_type is Some,
            self.default_queue_type matches Some(q) ==> text_at(r@, "default_queue_type"@, q.wire()),
            bool_at(r@, "tracing"@) == Some(self.tracing),
            forall|k: Seq<char>| #[trigger] r@.contains_key(k) ==> k == "name"@ || k == "description"@
                || k == "tags"@ || k == "default_queue_type"@ || k == "tracing"@,
    {
        proof {
            reveal_strlit("name");
            reveal_strlit("description");
            reveal_strlit("tags");
            reveal_strlit("default_queue_type");
            reveal_strlit("tracing");
            assert("name"@[0] != "description"@[0]);
            assert("name"@[0] != "tags"@[0]);
            assert("name"@[0] != "default_queue_type"@[0]);
            assert("name"@[0] != "tracing"@[0]);
            assert("description"@[0] != "tags"@[0]);
            assert("description"@[2] != "default_queue_type"@[2]);
            assert("description"@[0] != "tracing"@[0]);
            assert("tags"@[0] != "default_queue_type"@[0]);
            assert("tags"@[1] != "tracing"@[1]);
            assert("default_queue_type"@[0] != "tracing"@[0]);
        }
        let mut m = JsonMap::new();
        m.insert("name".to_string(), text(self.name));
        if let Some(d) = self.description {
            m.insert("description".to_string(), text(d));
        }
        match &self.tags {
            Some(tags) => {
                let mut items: Vec<JsonValue> = Vec::new();
                let mut i: usize = 0;
                while i < tags.len()
                    invariant
                        i <= tags@.len(),
                        items@.len() == i,
                        forall|j: int| 0 <= j < i ==> is_text(#[trigger] items@[j], tags@[j]@),
                    decreases tags@.len() - i,
                {
                    items.push(text(tags[i]));
                    i = i + 1;
                }
                m.insert("tags".to_string(), JsonValue::Array(JsonList::from_vec(items)));
            },
            None => {},
        }
        if let Some(q) = self.default_queue_type {
            m.insert("default_queue_type".to_string(), JsonValue::String(q.to_wire()));
        }
        m.insert("tracing".to_string(), JsonValue::Bool(self.tracing));
        m
    }
}

/// A resource limit to be enforced on a virtual host or a user.
pub struct EnforcedLimitParams<T> {
    pub kind: T,
    pub value: i64,
}

impl<T> EnforcedLimitParams<T> {
    pub fn new(kind: T, value: i64) -> (r: Self)
        ensures
            r.kind == kind,
            r.value == value,
    {
        EnforcedLimitParams { kind, value }
    }
}

impl EnforcedLimitParams<VirtualHostLimitTarget> {
    /// The payload that sets this limit on a virtual host.
    pub fn to_json(&self) -> (r: JsonMap)
        ensures
            r@.dom() == set!["kind"@, "value"@],
            text_at(r@, "kind"@, self.kind.wire()),
            r@["value"@] == int_json(self.value),
    {
        proof {
            reveal_strlit("kind");
            reveal_strlit("value");
            assert("kind"@[0] != "value"@[0]);
        }
        let mut m = JsonMap::new();
        m.insert("kind".to_string(), text(self.kind.as_ref()));
        m.insert("value".to_string(), int_value(self.value));
        assert(m@.dom() =~= set!["kind"@, "value"@]);
        m
    }
}

impl EnforcedLimitParams<UserLimitTarget> {
    /// The payload that sets this limit on a user.
    pub fn to_json(&self) -> (r: JsonMap)
        ensures
            r@.dom() == set!["kind"@, "value"@],
            text_at(r@, "kind"@, self.kind.wire()),
            r@["value"@] == int_json(self.value),
    {
        proof {
            reveal_strlit("kind");
            reveal_strlit("value");
            assert("kind"@[0] != "value"@[0]);
        }
        let mut m = JsonMap::new();
        m.insert("kind".to_string(), text(self.kind.as_ref()));
        m.insert("value".to_string(), int_value(self.value));
        assert(m@.dom() =~= set!["kind"@, "value"@]);
        m
    }
}

/// Properties of a user to be created or updated.
pub struct UserParams<'a> {
    pub name: &'a str,
    pub password_hash: &'a str,
    pub tags: &'a str,
}

impl<'a> UserParams<'a> {
    /// The payload that declares this user.
    pub fn to_json(&self) -> (r: JsonMap)
        ensures
            r@.dom() == set!["name"@, "password_hash"@, "tags"@],
            text_at(r@, "name"@, self.name@),
            text_at(r@, "password_hash"@, self.password_hash@),
            text_at(r@, "tags"@, self.tags@),
    {
        proof {
            reveal_strlit("name");
            reveal_strlit("password_hash");
            reveal_strlit("tags");
            assert("name"@[0] != "password_hash"@[0]);
            assert("name"@[0] != "tags"@[0]);
            assert("password_hash"@[0] != "tags"@[0]);
        }
        let mut m = JsonMap::new();
        m.insert("name".to_string(), text(self.name));
        m.insert("password_hash".to_string(), text(self.password_hash));
        m.insert("tags".to_string(), text(self.tags));
        assert(m@.dom() =~= set!["name"@, "password_hash"@, "tags"@]);
        m
    }
}

/// Queue properties used at declaration time.
pub struct QueueParams<'a> {
    /// The name of the queue to declare.
    /// Must be no longer than 255 bytes in length.
    pub name: &'a str,
    /// The kind of the queue; it travels in the arguments, under `x-queue-type`.
    pub queue_type: QueueType,
    pub durable: bool,
    pub auto_delete: bool,
    pub exclusive: bool,
    /// Optional queue arguments
    pub arguments: XArguments,
}

/// The arguments `r` that a queue of kind `qt` is declared with when the caller
/// gives `args`: the kind marker first, then the caller's members over it.
pub open spec fn combines(r: XArguments, args: XArguments, qt: QueueType) -> bool {
    &&& r is Some
    &&& args_view(r).dom() == args_view(args).dom().insert(QUEUE_TYPE_KEY@)
    &&& forall|k: Seq<char>| #[trigger]
        args_view(args).contains_key(k) ==> args_view(r)[k] == args_view(args)[k]
    &&& !args_view(args).contains_key(QUEUE_TYPE_KEY@) ==> is_text(
        args_view(r)[QUEUE_TYPE_KEY@],
        qt.wire(),
    )
}

impl<'a> QueueParams<'a> {
    /// Parameters of a durable quorum queue.
    pub fn new_quorum_queue(name: &'a str, optional_args: XArguments) -> (r: Self)
        ensures
            r.name == name,
            r.queue_type == QueueType::Quorum,
            r.durable && !r.auto_delete && !r.exclusive,
            combines(r.arguments, optional_args, QueueType::Quorum),
    {
        let typ = QueueType::Quorum;
        let args = Self::combined_args(optional_args, &typ);
        QueueParams {
            name,
            queue_type: QueueType::Quorum,
            durable: true,
            auto_delete: false,
            exclusive: false,
            arguments: args,
        }
    }

    /// Parameters of a durable stream.
    pub fn new_stream(name: &'a str, optional_args: XArguments) -> (r: Self)
        ensures
            r.name == name,
            r.queue_type == QueueType::Stream,
            r.durable && !r.auto_delete && !r.exclusive,
            combines(r.arguments, optional_args, QueueType::Stream),
    {
        let typ = QueueType::Stream;
        let args = Self::combined_args(optional_args, &typ);
        QueueParams {
            name,
            queue_type: QueueType::Stream,
            durable: true,
            auto_delete: false,
            exclusive: false,
            arguments: args,
        }
    }

    /// Parameters of a durable classic queue.
    pub fn new_durable_classic_queue(name: &'a str, optional_args: XArguments) -> (r: Self)
        ensures
            r.name == name,
            r.queue_type == QueueType::Classic,
            r.durable && !r.auto_delete && !r.exclusive,
            combines(r.arguments, optional_args, QueueType::Classic),
    {
        let typ = QueueType::Classic;
        let args = Self::combined_args(optional_args, &typ);
        QueueParams {
            name,
            queue_type: QueueType::Classic,
            durable: true,
            auto_delete: false,
            exclusive: false,
            arguments: args,
        }
    }

    /// Parameters of a queue of any kind; it is not exclusive.
    pub fn new(
        name: &'a str,
        queue_type: QueueType,
        durable: bool,
        auto_delete: bool,
        optional_args: XArguments,
    ) -> (r: Self)
        ensures
            r.name == name,
            r.queue_type == queue_type,
            r.durable == durable,
            r.auto_delete == auto_delete,
            !r.exclusive,
            combines(r.arguments, optional_args, queue_type),
    {
        let args = Self::combined_args(optional_args, &queue_type);
        QueueParams { name, queue_type, durable, auto_delete, exclusive: false, arguments: args }
    }

    /// The arguments of a queue of kind `queue_type`: the kind marker is written
    /// first and the caller's arguments over it, so that where the caller gives
    /// the marker key too, the caller's value stands.
    pub fn combined_args(optional_args: XArguments, queue_type: &QueueType) -> (r: XArguments)
        ensures
            combines(r, optional_args, *queue_type),
            r matches Some(m) && m@ == map![QUEUE_TYPE_KEY@ => m@[QUEUE_TYPE_KEY@]].union_prefer_right(
                args_view(optional_args),
            ),
    {
        let mut result = JsonMap::new();
        result.insert(QUEUE_TYPE_KEY.to_string(), JsonValue::String(queue_type.to_wire()));
        let ghost marked = result@;
        match &optional_args {
            Some(args) => result.append(args),
            None => {},
        }
        proof {
            assert(result@ =~= marked.union_prefer_right(args_view(optional_args)));
            assert(result@.dom() =~= args_view(optional_args).dom().insert(QUEUE_TYPE_KEY@));
            assert(map![QUEUE_TYPE_KEY@ => result@[QUEUE_TYPE_KEY@]].union_prefer_right(
                args_view(optional_args),
            ) =~= result@);
        }
        Some(result)
    }

    /// The payload that declares this queue. The kind travels in the arguments,
    /// which are left out where there are none.
    pub fn to_json(&self) -> (r: JsonMap)
        ensures
            text_at(r@, "name"@, self.name@),
            bool_at(r@, "durable"@) == Some(self.durable),
            bool_at(r@, "auto_delete"@) == Some(self.auto_delete),
            bool_at(r@, "exclusive"@) == Some(self.exclusive),
            r@.contains_key("arguments"@) <==> self.arguments is Some,
            self.arguments matches Some(a) ==> obj_at(r@, "arguments"@) == Some(a),
            forall|k: Seq<char>| #[trigger] r@.contains_key(k) ==> k == "name"@ || k == "durable"@
                || k == "auto_delete"@ || k == "exclusive"@ || k == "arguments"@,
    {
        proof {
            reveal_strlit("name");
            reveal_strlit("durable");
            reveal_strlit("auto_delete");
            reveal_strlit("exclusive");
            reveal_strlit("arguments");
            assert("name"@[0] != "durable"@[0]);
            assert("name"@[0] != "auto_delete"@[0]);
            assert("name"@[0] != "exclusive"@[0]);
            assert("name"@[0] != "arguments"@[0]);
            assert("durable"@[0] != "auto_delete"@[0]);
            assert("durable"@[0] != "exclusive"@[0]);
            assert("durable"@[0] != "arguments"@[0]);
            assert("auto_delete"@[0] != "exclusive"@[0]);
            assert("auto_delete"@[1] != "arguments"@[1]);
            assert("exclusive"@[0] != "arguments"@[0]);
        }
        let mut m = JsonMap::new();
        m.insert("name".to_string(), text(self.name));
        m.insert("durable".to_string(), JsonValue::Bool(self.durable));
        m.insert("auto_delete".to_string(), JsonValue::Bool(self.auto_delete));
        m.insert("exclusive".to_string(), JsonValue::Bool(self.exclusive));
        match &self.arguments {
            Some(a) => m.insert("arguments".to_string(), JsonValue::Object(a.duplicate())),
            None => {},
        }
        m
    }
}

/// Exchange properties used at declaration time.
pub struct ExchangeParams<'a> {
    pub name: &'a str,
    pub exchange_type: ExchangeType,
    pub durable: bool,
    pub auto_delete: bool,
    pub arguments: XArguments,
}

impl<'a> ExchangeParams<'a> {
    /// Parameters of a durable exchange that is not auto-deleted.
    pub fn durable(name: &'a str, exchange_type: ExchangeType, optional_args: XArguments) -> (r:
        Self)
        ensures
            r == (ExchangeParams { name, exchange_type, durable: true, auto_delete: false, arguments: optional_args }),
    {
        Self::new(name, exchange_type, true, false, optional_args)
    }

    /// Parameters of a fanout exchange.
    pub fn fanout(name: &'a str, durable: bool, auto_delete: bool, optional_args: XArguments) -> (r:
        Self)
        ensures
            r == (ExchangeParams { name, exchange_type: ExchangeType::Fanout, durable, auto_delete, arguments: optional_args }),
    {
        Self::new(name, ExchangeType::Fanout, durable, auto_delete, optional_args)
    }

    /// Parameters of a durable fanout exchange.
    pub fn durable_fanout(name: &'a str, optional_args: XArguments) -> (r: Self)
        ensures
            r == (ExchangeParams { name, exchange_type: ExchangeType::Fanout, durable: true, auto_delete: false, arguments: optional_args }),
    {
        Self::new(name, ExchangeType::Fanout, true, false, optional_args)
    }

    /// Parameters of a topic exchange.
    pub fn topic(name: &'a str, durable: bool, auto_delete: bool, optional_args: XArguments) -> (r:
        Self)
        ensures
            r == (ExchangeParams { name, exchange_type: ExchangeType::Topic, durable, auto_delete, arguments: optional_args }),
    {
        Self::new(name, ExchangeType::Topic, durable, auto_delete, optional_args)
    }

    /// Parameters of a durable topic exchange.
    pub fn durable_topic(name: &'a str, optional_args: XArguments) -> (r: Self)
        ensures
            r == (ExchangeParams { name, exchange_type: ExchangeType::Topic, durable: true, auto_delete: false, arguments: optional_args }),
    {
        Self::new(name, ExchangeType::Topic, true, false, optional_args)
    }

    /// Parameters of a direct exchange.
    pub fn direct(name: &'a str, durable: bool, auto_delete: bool, optional_args: XArguments) -> (r:
        Self)
        ensures
            r == (ExchangeParams { name, exchange_type: ExchangeType::Direct, durable, auto_delete, arguments: optional_args }),
    {
        Self::new(name, ExchangeType::Direct, durable, auto_delete, optional_args)
    }

    /// Parameters of a durable direct exchange.
    pub fn durable_direct(name: &'a str, optional_args: XArguments) -> (r: Self)
        ensures
            r == (ExchangeParams { name, exchange_type: ExchangeType::Direct, durable: true, auto_delete: false, arguments: optional_args }),
    {
        Self::new(name, ExchangeType::Direct, true, false, optional_args)
    }

    /// Parameters of a headers exchange.
    pub fn headers(name: &'a str, durable: bool, auto_delete: bool, optional_args: XArguments) -> (r:
        Self)
        ensures
            r == (ExchangeParams { name, exchange_type: ExchangeType::Headers, durable, auto_delete, arguments: optional_args }),
    {
        Self::new(name, ExchangeType::Headers, durable, auto_delete, optional_args)
    }

    /// Parameters of a durable headers exchange.
    pub fn durable_headers(name: &'a str, optional_args: XArguments) -> (r: Self)
        ensures
            r == (ExchangeParams { name, exchange_type: ExchangeType::Headers, durable: true, auto_delete: false, arguments: optional_args }),
    {
        Self::new(name, ExchangeType::Headers, true, false, optional_args)
    }

    /// Parameters of an exchange; no argument is added to the caller's.
    pub fn new(
        name: &'a str,
        exchange_type: ExchangeType,
        durable: bool,
        auto_delete: bool,
        optional_args: XArguments,
    ) -> (r: Self)
        ensures
            r == (ExchangeParams { name, exchange_type, durable, auto_delete, arguments: optional_args }),
    {
        ExchangeParams { name, exchange_type, durable, auto_delete, arguments: optional_args }
    }

    /// The payload that declares this exchange; its kind travels under `type`.
    pub fn to_json(&self) -> (r: JsonMap)
        ensures
            text_at(r@, "name"@, self.name@),
            text_at(r@, "type"@, self.exchange_type.wire()),
            bool_at(r@, "durable"@) == Some(self.durable),
            bool_at(r@, "auto_delete"@) == Some(self.auto_delete),
            r@.contains_key("arguments"@) <==> self.arguments is Some,
            self.arguments matches Some(a) ==> obj_at(r@, "arguments"@) == Some(a),
            forall|k: Seq<char>| #[trigger] r@.contains_key(k) ==> k == "name"@ || k == "type"@
                || k == "durable"@ || k == "auto_delete"@ || k == "arguments"@,
    {
        proof {
            reveal_strlit("name");
            reveal_strlit("type");
            reveal_strlit("durable");
            reveal_strlit("auto_delete");
            reveal_strlit("arguments");
            assert("name"@[0] != "type"@[0]);
            assert("name"@[0] != "durable"@[0]);
            assert("name"@[0] != "auto_delete"@[0]);
            assert("name"@[0] != "arguments"@[0]);
            assert("type"@[0] != "durable"@[0]);
            assert("type"@[0] != "auto_delete"@[0]);
            assert("type"@[0] != "arguments"@[0]);
            assert("durable"@[0] != "auto_delete"@[0]);
            assert("durable"@[0] != "arguments"@[0]);
            assert("auto_delete"@[1] != "arguments"@[1]);
        }
        let mut m = JsonMap::new();
        m.insert("name".to_string(), text(self.name));
        m.insert("type".to_string(), JsonValue::String(self.exchange_type.to_wire()));
        m.insert("durable".to_string(), JsonValue::Bool(self.durable));
        m.insert("auto_delete".to_string(), JsonValue::Bool(self.auto_delete));
        match &self.arguments {
            Some(a) => m.insert("arguments".to_string(), JsonValue::Object(a.duplicate())),
            None => {},
        }
        m
    }
}

/// The value of a runtime parameter.
pub type RuntimeParameterValue = JsonMap;

/// A runtime parameter to be set.
pub struct RuntimeParameterDefinition {
    pub name: String,
    pub vhost: String,
    pub component: String,
    pub value: RuntimeParameterValue,
}

impl RuntimeParameterDefinition {
    /// The payload that sets this parameter.
    pub fn to_json(&self) -> (r: JsonMap)
        ensures
            r@.dom() == set!["name"@, "vhost"@, "component"@, "value"@],
            str_at(r@, "name"@) == Some(self.name),
            str_at(r@, "vhost"@) == Some(self.vhost),
            str_at(r@, "component"@) == Some(self.component),
            obj_at(r@, "value"@) == Some(self.value),
    {
        proof {
            reveal_strlit("name");
            reveal_strlit("vhost");
            reveal_strlit("component");
            reveal_strlit("value");
            assert("name"@[0] != "vhost"@[0]);
            assert("name"@[0] != "component"@[0]);
            assert("name"@[0] != "value"@[0]);
            assert("vhost"@[0] != "component"@[0]);
            assert("vhost"@[1] != "value"@[1]);
            assert("component"@[0] != "value"@[0]);
        }
        let mut m = JsonMap::new();
        m.insert("name".to_string(), JsonValue::String(self.name.clone()));
        m.insert("vhost".to_string(), JsonValue::String(self.vhost.clone()));
        m.insert("component".to_string(), JsonValue::String(self.component.clone()));
        m.insert("value".to_string(), JsonValue::Object(self.value.duplicate()));
        assert(m@.dom() =~= set!["name"@, "vhost"@, "component"@, "value"@]);
        m
    }
}

/// The definition of a policy.
pub type PolicyDefinition = Option<JsonMap>;

/// A policy to be declared.
pub struct PolicyParams<'a> {
    pub vhost: &'a str,
    pub name: &'a str,
    pub pattern: &'a str,
    pub apply_to: PolicyTarget,
    pub priority: i32,
    pub definition: PolicyDefinition,
}

impl<'a> PolicyParams<'a> {
    /// The payload that declares this policy; a missing definition is null.
    pub fn to_json(&self) -> (r: JsonMap)
        ensures
            r@.dom() == set!["vhost"@, "name"@, "pattern"@, "apply-to"@, "priority"@, "definition"@],
            text_at(r@, "vhost"@, self.vhost@),
            text_at(r@, "name"@, self.name@),
            text_at(r@, "pattern"@, self.pattern@),
            text_at(r@, "apply-to"@, self.apply_to.wire()),
            r@["priority"@] == int_json(self.priority as i64),
            r@["definition"@] == (match self.definition {
                Some(d) => JsonValue::Object(d),
                None => JsonValue::Null,
            }),
    {
        proof {
            reveal_strlit("vhost");
            reveal_strlit("name");
            reveal_strlit("pattern");
            reveal_strlit("apply-to");
            reveal_strlit("priority");
            reveal_strlit("definition");
            assert("vhost"@[0] != "name"@[0]);
            assert("vhost"@[0] != "pattern"@[0]);
            assert("vhost"@[0] != "apply-to"@[0]);
            assert("vhost"@[0] != "priority"@[0]);
            assert("vhost"@[0] != "definition"@[0]);
            assert("name"@[0] != "pattern"@[0]);
            assert("name"@[0] != "apply-to"@[0]);
            assert("name"@[0] != "priority"@[0]);
            assert("name"@[0] != "definition"@[0]);
            assert("pattern"@[0] != "apply-to"@[0]);
            assert("pattern"@[1] != "priority"@[1]);
            assert("pattern"@[0] != "definition"@[0]);
            assert("apply-to"@[0] != "priority"@[0]);
            assert("apply-to"@[0] != "definition"@[0]);
            assert("priority"@[0] != "definition"@[0]);
        }
        let mut m = JsonMap::new();
        m.insert("vhost".to_string(), text(self.vhost));
        m.insert("name".to_string(), text(self.name));
        m.insert("pattern".to_string(), text(self.pattern));
        m.insert("apply-to".to_string(), JsonValue::String(self.apply_to.to_wire()));
        m.insert("priority".to_string(), int_value(self.priority as i64));
        let d = match &self.definition {
            Some(d) => JsonValue::Object(d.duplicate()),
            None => JsonValue::Null,
        };
        m.insert("definition".to_string(), d);
        assert(m@.dom() =~= set!["vhost"@, "name"@, "pattern"@, "apply-to"@, "priority"@, "definition"@]);
        m
    }
}

/// A user's permissions in a virtual host, to be granted.
pub struct Permissions<'a> {
    pub user: &'a str,
    pub vhost: &'a str,
    pub configure: &'a str,
    pub read: &'a str,
    pub write: &'a str,
}

impl<'a> Permissions<'a> {
    /// The payload that grants these permissions.
    pub fn to_json(&self) -> (r: JsonMap)
        ensures
            r@.dom() == set!["user"@, "vhost"@, "configure"@, "read"@, "write"@],
            text_at(r@, "user"@, self.user@),
            text_at(r@, "vhost"@, self.vhost@),
            text_at(r@, "configure"@, self.configure@),
            text_at(r@, "read"@, self.read@),
            text_at(r@, "write"@, self.write@),
    {
        proof {
            reveal_strlit("user");
            reveal_strlit("vhost");
            reveal_strlit("configure");
            reveal_strlit("read");
            reveal_strlit("write");
            assert("user"@[0] != "vhost"@[0]);
            assert("user"@[0] != "configure"@[0]);
            assert("user"@[0] != "read"@[0]);
            assert("user"@[0] != "write"@[0]);
            assert("vhost"@[0] != "configure"@[0]);
            assert("vhost"@[0] != "read"@[0]);
            assert("vhost"@[0] != "write"@[0]);
            assert("configure"@[0] != "read"@[0]);
            assert("configure"@[0] != "write"@[0]);
            assert("read"@[0] != "write"@[0]);
        }
        let mut m = JsonMap::new();
        m.insert("user".to_string(), text(self.user));
        m.insert("vhost".to_string(), text(self.vhost));
        m.insert("configure".to_string(), text(self.configure));
        m.insert("read".to_string(), text(self.read));
        m.insert("write".to_string(), text(self.write));
        assert(m@.dom() =~= set!["user"@, "vhost"@, "configure"@, "read"@, "write"@]);
        m
    }
}

/// Message properties to publish with.
pub type MessageProperties = JsonMap;

} // verus!
