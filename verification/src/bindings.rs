//! The values of a flow run in the form the template engine takes them.

use vstd::prelude::*;
use crate::hospital_settings::HospitalSettings;
use crate::template::{lookup, ArgValue, TemplateContext};

verus! {

/// `serde_json::Value`, a JSON value. Nothing of its inside is visible here.
#[verifier::external_type_specification]
#[verifier::external_body]
pub struct ExJsonValue(serde_json::Value);

/// `serde_json::Number`, a JSON number. Nothing of its inside is visible here.
#[verifier::external_type_specification]
#[verifier::external_body]
pub struct ExJsonNumber(serde_json::Number);

/// `serde_json::Map`, the fields of a JSON object. Nothing of its inside is
/// visible here.
#[verifier::external_type_specification]
#[verifier::external_body]
#[verifier::reject_recursive_types(K)]
#[verifier::reject_recursive_types(V)]
pub struct ExJsonObject<K, V>(serde_json::Map<K, V>);

/// `tera::Context`, the bindings a template is rendered against. Nothing of
/// its inside is visible here.
#[verifier::external_type_specification]
#[verifier::external_body]
pub struct ExBindings(tera::Context);

/// What a JSON value holds.
pub enum JsonModel {
    Null,
    Bool(bool),
    Number(serde_json::Number),
    Text(Seq<char>),
    List(Seq<JsonModel>),
    Record(Map<Seq<char>, JsonModel>),
}

/// What a `serde_json::Value` holds.
pub uninterp spec fn json_model(value: serde_json::Value) -> JsonModel;

/// What a `serde_json::Map` holds under each of its names.
pub uninterp spec fn object_fields(object: serde_json::Map<String, serde_json::Value>) -> Map<
    Seq<char>,
    JsonModel,
>;

/// What a `tera::Context` binds each of its names to.
pub uninterp spec fn bound_values(bindings: tera::Context) -> Map<Seq<char>, JsonModel>;

/// The object collected from fields in order, a later field replacing an
/// earlier one of the same name.
pub open spec fn collected(fields: Seq<(Seq<char>, JsonModel)>) -> Map<Seq<char>, JsonModel>
    decreases fields.len(),
{
    if fields.len() == 0 {
        Map::empty()
    } else {
        collected(fields.drop_last()).insert(fields.last().0, fields.last().1)
    }
}

/// What each of some JSON values holds.
pub open spec fn item_models(items: Seq<serde_json::Value>) -> Seq<JsonModel> {
    items.map_values(|item: serde_json::Value| json_model(item))
}

/// `serde_json::Value::Null`.
#[verifier::external_body]
fn json_null() -> (json: serde_json::Value)
    ensures
        json_model(json) == JsonModel::Null,
{
    serde_json::Value::Null
}

/// `serde_json::Value::Bool` of a flag.
#[verifier::external_body]
fn json_bool(flag: bool) -> (json: serde_json::Value)
    ensures
        json_model(json) == JsonModel::Bool(flag),
{
    serde_json::Value::Bool(flag)
}

/// `serde_json::Value::Number` of a copy of a number.
#[verifier::external_body]
fn json_number(number: &serde_json::Number) -> (json: serde_json::Value)
    ensures
        json_model(json) == JsonModel::Number(*number),
{
    serde_json::Value::Number(number.clone())
}

/// `serde_json::Value::String` of a copy of a text.
#[verifier::external_body]
fn json_text(text: &str) -> (json: serde_json::Value)
    ensures
        json_model(json) == JsonModel::Text(text@),
{
    serde_json::Value::String(text.to_owned())
}

/// `serde_json::Value::Array` of the items, in their order.
#[verifier::external_body]
fn json_array(items: Vec<serde_json::Value>) -> (json: serde_json::Value)
    ensures
        json_model(json) == JsonModel::List(item_models(items@)),
{
    serde_json::Value::Array(items)
}

/// `serde_json::Map::new`: an object without fields.
#[verifier::external_body]
fn new_object() -> (object: serde_json::Map<String, serde_json::Value>)
    ensures
        object_fields(object) == nothing_bound(),
{
    serde_json::Map::new()
}

/// `serde_json::Map::insert`: puts `value` under `key`; where the object has
/// the key already, its value is updated. The other fields stay as they are.
#[verifier::external_body]
fn object_insert(object: &mut serde_json::Map<String, serde_json::Value>, key: String, value: serde_json::Value)
    ensures
        object_fields(*final(object)) == object_fields(*old(object)).insert(key@, json_model(value)),
{
    object.insert(key, value);
}

/// `serde_json::Value::Object` of the fields.
#[verifier::external_body]
fn json_object(object: serde_json::Map<String, serde_json::Value>) -> (json: serde_json::Value)
    ensures
        json_model(json) == JsonModel::Record(object_fields(object)),
{
    serde_json::Value::Object(object)
}

/// The bindings of a context that binds nothing.
pub open spec fn nothing_bound() -> Map<Seq<char>, JsonModel> {
    Map::empty()
}

/// `tera::Context::new`: a context that binds nothing.
#[verifier::external_body]
fn new_bindings() -> (empty: tera::Context)
    ensures
        bound_values(empty) == nothing_bound(),
{
    tera::Context::new()
}

/// `tera::Context::insert`: binds `key` to `value`, in place of what it was
/// bound to, and leaves the other names as they are. The context keeps the
/// serialized form of `value`, which for a JSON value is the value itself and
/// cannot fail.
#[verifier::external_body]
fn bind(bindings: &mut tera::Context, key: &str, value: &serde_json::Value)
    ensures
        bound_values(*final(bindings)) == bound_values(*old(bindings)).insert(key@, json_model(*value)),
{
    bindings.insert(key, value)
}

/// The JSON form of each item of a list.
pub open spec fn models_of(items: Seq<ArgValue>) -> Seq<JsonModel>
    decreases items,
{
    Seq::new(
        items.len(),
        |i: int|
            if 0 <= i < items.len() {
                model_of(items[i])
            } else {
                JsonModel::Null
            },
    )
}

/// The name and the JSON form of each entry of a record.
pub open spec fn entry_models(entries: Seq<(String, ArgValue)>) -> Seq<(Seq<char>, JsonModel)>
    decreases entries,
{
    Seq::new(
        entries.len(),
        |i: int|
            if 0 <= i < entries.len() {
                (entries[i].0@, model_of(entries[i].1))
            } else {
                (Seq::empty(), JsonModel::Null)
            },
    )
}

/// The JSON form of an argument.
pub open spec fn model_of(value: ArgValue) -> JsonModel
    decreases value,
{
    match value {
        ArgValue::Null => JsonModel::Null,
        ArgValue::Bool(flag) => JsonModel::Bool(flag),
        ArgValue::Number(number) => JsonModel::Number(number),
        ArgValue::Text(text) => JsonModel::Text(text@),
        ArgValue::List(items) => JsonModel::List(models_of(items@)),
        ArgValue::Record(fields) => JsonModel::Record(collected(entry_models(fields@))),
    }
}

/// Builds the JSON object that holds the fields of a record, a later field
/// replacing an earlier one of the same name.
fn record_to_json(fields: &Vec<(String, ArgValue)>) -> (json: serde_json::Value)
    ensures
        json_model(json) == JsonModel::Record(collected(entry_models(fields@))),
    decreases fields,
{
    let mut object = new_object();
    let mut index: usize = 0;
    proof {
        assert(entry_models(fields@).take(0).len() == 0);
    }
    while index < fields.len()
        invariant
            index <= fields.len(),
            object_fields(object) == collected(entry_models(fields@).take(index as int)),
        decreases fields.len() - index,
    {
        proof {
            assert(decreases_to!(fields => fields@));
            assert(decreases_to!(fields@ => fields@[index as int]));
            assert(decreases_to!(fields@[index as int] => fields@[index as int].1));
            let head = entry_models(fields@).take(index + 1);
            assert(head.drop_last() == entry_models(fields@).take(index as int));
            assert(head.last() == (fields@[index as int].0@, model_of(fields@[index as int].1)));
        }
        let value = to_json(&fields[index].1);
        object_insert(&mut object, fields[index].0.clone(), value);
        index += 1;
    }
    proof {
        assert(entry_models(fields@).take(index as int) == entry_models(fields@));
    }
    json_object(object)
}

/// Builds the JSON form of an argument.
pub(crate) fn to_json(value: &ArgValue) -> (json: serde_json::Value)
    ensures
        json_model(json) == model_of(*value),
    decreases value,
{
    match value {
        ArgValue::Null => json_null(),
        ArgValue::Bool(flag) => json_bool(*flag),
        ArgValue::Number(number) => json_number(number),
        ArgValue::Text(text) => json_text(text.as_str()),
        ArgValue::List(items) => {
            let mut converted: Vec<serde_json::Value> = Vec::new();
            let mut index: usize = 0;
            while index < items.len()
                invariant
                    index <= items.len(),
                    value == ArgValue::List(*items),
                    converted@.len() == index,
                    forall|i: int|
                        0 <= i < index ==> json_model(#[trigger] converted@[i]) == model_of(items@[i]),
                decreases items.len() - index,
            {
                proof {
                    assert(decreases_to!(value => value->List_0));
                    assert(decreases_to!(value->List_0 => value->List_0[index as int]));
                }
                converted.push(to_json(&items[index]));
                index += 1;
            }
            proof {
                assert(item_models(converted@) =~= models_of(items@));
            }
            json_array(converted)
        },
        ArgValue::Record(fields) => {
            proof {
                assert(decreases_to!(value => value->Record_0));
            }
            record_to_json(fields)
        },
    }
}

/// The names and the JSON forms under which templates find the settings.
pub open spec fn settings_fields(settings: HospitalSettings) -> Seq<(Seq<char>, JsonModel)> {
    seq![
        ("id"@, JsonModel::Text(settings.id@)),
        ("name"@, JsonModel::Text(settings.name@)),
        ("mainServerIp"@, JsonModel::Text(settings.main_server_ip@)),
        ("databaseServerIp"@, JsonModel::Text(settings.database_server_ip@)),
        ("redisServerIp"@, JsonModel::Text(settings.redis_server_ip@)),
        ("minioServerIp"@, JsonModel::Text(settings.minio_server_ip@)),
        ("reportServerIp"@, JsonModel::Text(settings.report_server_ip@)),
        ("filePreviewServerIp"@, JsonModel::Text(settings.file_preview_server_ip@)),
        ("dashboardServerIp"@, JsonModel::Text(settings.dashboard_server_ip@)),
        ("bigScreenServerIp"@, JsonModel::Text(settings.big_screen_server_ip@)),
    ]
}

/// What templates are rendered against: `os` is the remote operating system,
/// `hs` holds the settings of the site, and `args` the caller's arguments.
pub open spec fn context_model(context: TemplateContext) -> Map<Seq<char>, JsonModel> {
    nothing_bound().insert("os"@, JsonModel::Text(context.os@)).insert(
        "hs"@,
        JsonModel::Record(collected(settings_fields(context.settings))),
    ).insert("args"@, JsonModel::Record(collected(entry_models(context.args.entries@))))
}

impl TemplateContext {
    /// The bindings that the template engine takes for this context.
    pub fn bindings(&self) -> (bound: tera::Context)
        ensures
            bound_values(bound) == context_model(*self),
    {
        let mut bound = new_bindings();
        bind(&mut bound, "os", &json_text(self.os.as_str()));
        let settings = self.settings.bindings();
        proof {
            assert(entry_models(settings@) =~= settings_fields(self.settings));
        }
        bind(&mut bound, "hs", &record_to_json(&settings));
        bind(&mut bound, "args", &record_to_json(&self.args.entries));
        bound
    }
}

/// A template finds under `args` what [`crate::template::FlowArgs::get`]
/// finds: the names that are bound, each with the JSON form of its value.
pub proof fn arguments_are_bound_as_looked_up(entries: Seq<(String, ArgValue)>, key: Seq<char>)
    ensures
        collected(entry_models(entries)).contains_key(key) == lookup(entries, key) is Some,
        lookup(entries, key) matches Some(value) ==> collected(entry_models(entries))[key] == model_of(value),
    decreases entries.len(),
{
    if entries.len() > 0 {
        arguments_are_bound_as_looked_up(entries.drop_last(), key);
        assert(entry_models(entries).drop_last() =~= entry_models(entries.drop_last()));
    }
}

} // verus!
