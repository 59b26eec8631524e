//! Sources and sinks of a pipeline, chosen by name and built from a task's
//! JSON configuration.
use vstd::prelude::*;

use crate::json::{fields_of, json_of, lemma_fields_of, Json, JsonValue};

verus! {

/// What `str::to_lowercase` makes of a string.
pub uninterp spec fn lower_of(s: Seq<char>) -> Seq<char>;

/// Relies on `str::to_lowercase`: the result depends on the characters alone.
#[verifier::external_body]
pub(crate) fn lowercase(s: &str) -> (r: String)
    ensures
        r@ == lower_of(s@),
{
    s.to_lowercase()
}

/// Whether two strings hold the same characters.
pub fn same_text(a: &str, b: &str) -> (r: bool)
    ensures
        r == (a@ == b@),
{
    a.to_owned() == b.to_owned()
}

/// The first field named `k` of an object.
pub open spec fn field_of(fields: Seq<(Seq<char>, Json)>, k: Seq<char>) -> Option<Json>
    decreases fields.len(),
{
    if fields.len() == 0 {
        None
    } else if fields[0].0 == k {
        Some(fields[0].1)
    } else {
        field_of(fields.drop_first(), k)
    }
}

/// The string under field `k` of an object, where there is one.
pub open spec fn string_field(v: Json, k: Seq<char>) -> Option<Seq<char>> {
    match v {
        Json::Object(f) => match field_of(f, k) {
            Some(Json::Str(s)) => Some(s),
            _ => None,
        },
        _ => None,
    }
}

/// The value under field `k` of an object, where there is one.
pub open spec fn any_field(v: Json, k: Seq<char>) -> Option<Json> {
    match v {
        Json::Object(f) => field_of(f, k),
        _ => None,
    }
}

proof fn lemma_field_of(fields: Seq<(Seq<char>, Json)>, i: int, k: Seq<char>)
    requires
        0 <= i <= fields.len(),
        forall|j: int| 0 <= j < i ==> fields[j].0 != k,
    ensures
        i < fields.len() && fields[i].0 == k ==> field_of(fields, k) == Some(fields[i].1),
        i == fields.len() ==> field_of(fields, k) is None,
    decreases i,
{
    if i > 0 {
        lemma_field_of(fields.drop_first(), i - 1, k);
    }
}

/// The value under field `key` of `v`, where `v` is an object that has it.
pub fn get_field<'a>(v: &'a JsonValue, key: &str) -> (r: Option<&'a JsonValue>)
    ensures
        match r {
            Some(x) => any_field(v@, key@) == Some(x@),
            None => any_field(v@, key@) is None,
        },
{
    match v {
        JsonValue::Object(fields) => {
            proof {
                lemma_fields_of(fields@);
                assert(v@ == Json::Object(fields_of(fields@)));
            }
            let k = key.to_owned();
            let mut i: usize = 0;
            while i < fields.len()
                invariant
                    i <= fields@.len(),
                    k@ == key@,
                    *v == JsonValue::Object(*fields),
                    v@ == Json::Object(fields_of(fields@)),
                    fields_of(fields@).len() == fields@.len(),
                    forall|j: int|
                        0 <= j < fields@.len() ==> #[trigger] fields_of(fields@)[j] == (
                            fields@[j].0@,
                            json_of(fields@[j].1),
                        ),
                    forall|j: int| 0 <= j < i ==> fields_of(fields@)[j].0 != key@,
                decreases fields@.len() - i,
            {
                if fields[i].0 == k {
                    proof {
                        lemma_field_of(fields_of(fields@), i as int, key@);
                    }
                    return Some(&fields[i].1);
                }
                i += 1;
            }
            proof {
                lemma_field_of(fields_of(fields@), i as int, key@);
            }
            None
        },
        _ => None,
    }
}

/// The string under field `key` of `v`, where there is one.
pub fn get_string_field(v: &JsonValue, key: &str) -> (r: Option<String>)
    ensures
        match r {
            Some(s) => string_field(v@, key@) == Some(s@),
            None => string_field(v@, key@) is None,
        },
{
    match get_field(v, key) {
        Some(JsonValue::Str(s)) => Some(s.clone()),
        _ => None,
    }
}

/// Why a source or sink could not be built.
#[derive(Debug, Clone, Copy, PartialEq, Eq, Structural)]
pub enum LinkError {
    /// The name is not one of the known kinds.
    UnknownKind,
    /// A required field is missing or is not of the required type.
    BadConfig,
}

/// The kinds of sources and sinks.
#[derive(Debug, Clone, Copy, PartialEq, Eq, Structural)]
pub enum LinkKind {
    Kafka,
    Empty,
}

/// The kind that a lower-case name selects.
pub open spec fn kind_of(lowered: Seq<char>) -> Option<LinkKind> {
    if lowered == "kafka"@ {
        Some(LinkKind::Kafka)
    } else if lowered == "empty"@ {
        Some(LinkKind::Empty)
    } else {
        None
    }
}

/// The kind that a name, already in lower case, selects.
pub fn kind_of_lowered(lowered: &str) -> (r: Option<LinkKind>)
    ensures
        r == kind_of(lowered@),
{
    if same_text(lowered, "kafka") {
        Some(LinkKind::Kafka)
    } else if same_text(lowered, "empty") {
        Some(LinkKind::Empty)
    } else {
        None
    }
}

/// The kind that a name selects, in any case.
pub fn link_kind(name: &str) -> (r: Option<LinkKind>)
    ensures
        r == kind_of(lower_of(name@)),
{
    let lowered = lowercase(name);
    kind_of_lowered(lowered.as_str())
}

/// The arguments of a Kafka sink.
#[derive(Debug, PartialEq)]
pub struct KafkaSinkArg {
    topic: String,
    params: String,
}

impl KafkaSinkArg {
    /// The arguments held in a configuration object with string fields
    /// `topic` and `params`.
    pub fn new(val: &JsonValue) -> (r: Result<KafkaSinkArg, LinkError>)
        ensures
            match (string_field(val@, "topic"@), string_field(val@, "params"@)) {
                (Some(t), Some(p)) => r is Ok && r->Ok_0.get_topic_spec() == t
                    && r->Ok_0.get_params_spec() == p,
                _ => r == Err::<KafkaSinkArg, LinkError>(LinkError::BadConfig),
            },
    {
        match (get_string_field(val, "topic"), get_string_field(val, "params")) {
            (Some(topic), Some(params)) => Ok(KafkaSinkArg { topic, params }),
            _ => Err(LinkError::BadConfig),
        }
    }

    pub closed spec fn get_topic_spec(&self) -> Seq<char> {
        self.topic@
    }

    pub closed spec fn get_params_spec(&self) -> Seq<char> {
        self.params@
    }

    /// The topic to write to.
    pub fn get_topic(&self) -> (r: &str)
        ensures
            r@ == self.get_topic_spec(),
    {
        self.topic.as_str()
    }

    /// The client parameters, as `key=value` pairs joined by `&`.
    pub fn get_params(&self) -> (r: &str)
        ensures
            r@ == self.get_params_spec(),
    {
        self.params.as_str()
    }
}

/// The arguments of a Kafka source.
#[derive(Debug, PartialEq)]
pub struct ConsumerArgs {
    topic: String,
    params: String,
}

impl ConsumerArgs {
    /// The arguments held in a configuration object with string fields
    /// `topic` and `params`.
    pub fn new(val: &JsonValue) -> (r: Result<ConsumerArgs, LinkError>)
        ensures
            match (string_field(val@, "topic"@), string_field(val@, "params"@)) {
                (Some(t), Some(p)) => r is Ok && r->Ok_0.get_topic_spec() == t
                    && r->Ok_0.get_params_spec() == p,
                _ => r == Err::<ConsumerArgs, LinkError>(LinkError::BadConfig),
            },
    {
        match (get_string_field(val, "topic"), get_string_field(val, "params")) {
            (Some(topic), Some(params)) => Ok(ConsumerArgs { topic, params }),
            _ => Err(LinkError::BadConfig),
        }
    }

    pub closed spec fn get_topic_spec(&self) -> Seq<char> {
        self.topic@
    }

    pub closed spec fn get_params_spec(&self) -> Seq<char> {
        self.params@
    }

    /// The topic to read from.
    pub fn get_topic(&self) -> (r: &str)
        ensures
            r@ == self.get_topic_spec(),
    {
        self.topic.as_str()
    }

    /// The client parameters, as `key=value` pairs joined by `&`.
    pub fn get_params(&self) -> (r: &str)
        ensures
            r@ == self.get_params_spec(),
    {
        self.params.as_str()
    }
}

/// A sink that writes to Kafka.
#[derive(Debug)]
pub struct KafkaSinker {
    pub arg: KafkaSinkArg,
}

/// A sink that only logs what it receives, with its configuration.
#[derive(Debug)]
pub struct EmptySinker {
    pub val: JsonValue,
}

/// A source that reads from Kafka.
#[derive(Debug)]
pub struct KafkaSource {
    pub arg: ConsumerArgs,
}

/// A source that sends one empty message, with its configuration.
#[derive(Debug)]
pub struct EmptySource {
    pub val: JsonValue,
}

/// The sinks a task can write to.
#[derive(Debug)]
pub enum SinkerEnum {
    EmptySinker(EmptySinker),
    KafkaSinker(KafkaSinker),
}

/// The sources a task can read from.
#[derive(Debug)]
pub enum SourceEnum {
    EmptySource(EmptySource),
    KafkaSource(KafkaSource),
}

/// The sink named `name` (in any case), configured by `val`.
pub fn get_sinker(name: &str, val: &JsonValue) -> (r: Result<SinkerEnum, LinkError>)
    ensures
        match kind_of(lower_of(name@)) {
            None => r == Err::<SinkerEnum, LinkError>(LinkError::UnknownKind),
            Some(LinkKind::Empty) => r matches Ok(SinkerEnum::EmptySinker(s)) && s.val@ == val@,
            Some(LinkKind::Kafka) => match (
                string_field(val@, "topic"@),
                string_field(val@, "params"@),
            ) {
                (Some(t), Some(p)) => r matches Ok(SinkerEnum::KafkaSinker(s))
                    && s.arg.get_topic_spec() == t && s.arg.get_params_spec() == p,
                _ => r == Err::<SinkerEnum, LinkError>(LinkError::BadConfig),
            },
        },
{
    match link_kind(name) {
        Some(LinkKind::Kafka) => match KafkaSinkArg::new(val) {
            Ok(arg) => Ok(SinkerEnum::KafkaSinker(KafkaSinker { arg })),
            Err(e) => Err(e),
        },
        Some(LinkKind::Empty) => Ok(SinkerEnum::EmptySinker(EmptySinker { val: val.deep_copy() })),
        None => Err(LinkError::UnknownKind),
    }
}

/// The source named `name` (in any case), configured by `val`.
pub fn get_source(name: &str, val: &JsonValue) -> (r: Result<SourceEnum, LinkError>)
    ensures
        match kind_of(lower_of(name@)) {
            None => r == Err::<SourceEnum, LinkError>(LinkError::UnknownKind),
            Some(LinkKind::Empty) => r matches Ok(SourceEnum::EmptySource(s)) && s.val@ == val@,
            Some(LinkKind::Kafka) => match (
                string_field(val@, "topic"@),
                string_field(val@, "params"@),
            ) {
                (Some(t), Some(p)) => r matches Ok(SourceEnum::KafkaSource(s))
                    && s.arg.get_topic_spec() == t && s.arg.get_params_spec() == p,
                _ => r == Err::<SourceEnum, LinkError>(LinkError::BadConfig),
            },
        },
{
    match link_kind(name) {
        Some(LinkKind::Kafka) => match ConsumerArgs::new(val) {
            Ok(arg) => Ok(SourceEnum::KafkaSource(KafkaSource { arg })),
            Err(e) => Err(e),
        },
        Some(LinkKind::Empty) => Ok(SourceEnum::EmptySource(EmptySource { val: val.deep_copy() })),
        None => Err(LinkError::UnknownKind),
    }
}

/// A sink or source as a task configures it: a kind name and its arguments.
#[derive(Debug)]
pub struct LinkArg {
    pub name: String,
    pub val: JsonValue,
}

impl LinkArg {
    /// The name and arguments held in a configuration object with a string
    /// field `name` and a field `val`.
    pub fn new(config: &JsonValue) -> (r: Result<LinkArg, LinkError>)
        ensures
            match (string_field(config@, "name"@), any_field(config@, "val"@)) {
                (Some(n), Some(v)) => r is Ok && r->Ok_0.name@ == n && r->Ok_0.val@ == v,
                _ => r == Err::<LinkArg, LinkError>(LinkError::BadConfig),
            },
    {
        match (get_string_field(config, "name"), get_field(config, "val")) {
            (Some(name), Some(v)) => Ok(LinkArg { name, val: v.deep_copy() }),
            _ => Err(LinkError::BadConfig),
        }
    }
}

/// Whether a configuration names a known kind and carries the arguments that the kind needs.
pub open spec fn link_ok(config: Json) -> bool {
    match (string_field(config, "name"@), any_field(config, "val"@)) {
        (Some(n), Some(v)) => match kind_of(lower_of(n)) {
            None => false,
            Some(LinkKind::Empty) => true,
            Some(LinkKind::Kafka) => string_field(v, "topic"@) is Some && string_field(
                v,
                "params"@,
            ) is Some,
        },
        _ => false,
    }
}

/// Whether `s` is the source that a configuration describes.
pub open spec fn source_built(config: Json, s: SourceEnum) -> bool {
    match (string_field(config, "name"@), any_field(config, "val"@)) {
        (Some(n), Some(v)) => match kind_of(lower_of(n)) {
            Some(LinkKind::Empty) => s matches SourceEnum::EmptySource(e) && e.val@ == v,
            Some(LinkKind::Kafka) => s matches SourceEnum::KafkaSource(k) && string_field(
                v,
                "topic"@,
            ) == Some(k.arg.get_topic_spec()) && string_field(v, "params"@) == Some(
                k.arg.get_params_spec(),
            ),
            None => false,
        },
        _ => false,
    }
}

/// Whether `s` is the sink that a configuration describes.
pub open spec fn sink_built(config: Json, s: SinkerEnum) -> bool {
    match (string_field(config, "name"@), any_field(config, "val"@)) {
        (Some(n), Some(v)) => match kind_of(lower_of(n)) {
            Some(LinkKind::Empty) => s matches SinkerEnum::EmptySinker(e) && e.val@ == v,
            Some(LinkKind::Kafka) => s matches SinkerEnum::KafkaSinker(k) && string_field(
                v,
                "topic"@,
            ) == Some(k.arg.get_topic_spec()) && string_field(v, "params"@) == Some(
                k.arg.get_params_spec(),
            ),
            None => false,
        },
        _ => false,
    }
}

/// The source and the sink of a task, built from its source and sink configurations.
pub fn build_links(src_config: &JsonValue, dst_config: &JsonValue) -> (r: Result<
    (SourceEnum, SinkerEnum),
    LinkError,
>)
    ensures
        r is Ok <==> link_ok(src_config@) && link_ok(dst_config@),
        r matches Ok((s, k)) ==> source_built(src_config@, s) && sink_built(dst_config@, k),
{
    let sink_arg = match LinkArg::new(dst_config) {
        Ok(a) => a,
        Err(e) => return Err(e),
    };
    let sink = match get_sinker(sink_arg.name.as_str(), &sink_arg.val) {
        Ok(s) => s,
        Err(e) => return Err(e),
    };
    let source_arg = match LinkArg::new(src_config) {
        Ok(a) => a,
        Err(e) => return Err(e),
    };
    let source = match get_source(source_arg.name.as_str(), &source_arg.val) {
        Ok(s) => s,
        Err(e) => return Err(e),
    };
    Ok((source, sink))
}

} // verus!
