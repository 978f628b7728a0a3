use crate::model::fresh_record;
use crate::model::valid_model_id;
use crate::model::Model;
use vstd::prelude::*;

verus! {

/// Relies on uuid's `Uuid::new_v4` and its `Display` impl: a freshly drawn
/// version-4 identifier rendered in the hyphenated form, which is exactly
/// 36 characters long. The value itself is random, so nothing more is
/// promised of it.
#[verifier::external_body]
fn fresh_model_id() -> (r: String)
    ensures
        valid_model_id(r@),
{
    uuid::Uuid::new_v4().to_string()
}

/// Relies on chrono's `Utc::now` and `DateTime::timestamp_millis`: the
/// current moment as milliseconds since the Unix epoch. The result depends
/// on the clock, so nothing is promised of it.
#[verifier::external_body]
fn current_timestamp_millis() -> i64 {
    chrono::Utc::now().timestamp_millis()
}

/// The first fabricated record of the listing stub, under the given
/// identifier and creation moment: the large text-generation model.
pub open spec fn first_sample(m: Model, id: Seq<char>, stamp: i64) -> bool {
    &&& m.id@ == id
    &&& m.name@ == "DeepSeek-R1"@
    &&& m.description is Some
    &&& m.description->0@ == "Text generation model"@
    &&& m.model_type@ == "text-generation"@
    &&& m.size@ == "XL 22B"@
    &&& m.created_at == stamp
    &&& m.updated_at == stamp
}

/// The second fabricated record of the listing stub, under the given
/// identifier and creation moment: the compact text-generation model.
pub open spec fn second_sample(m: Model, id: Seq<char>, stamp: i64) -> bool {
    &&& m.id@ == id
    &&& m.name@ == "DeepSeek-R1"@
    &&& m.description is Some
    &&& m.description->0@ == "Compact model"@
    &&& m.model_type@ == "text-generation"@
    &&& m.size@ == "3.9 ML"@
    &&& m.created_at == stamp
    &&& m.updated_at == stamp
}

/// Builds the two fabricated records that the listing operation returns,
/// from already-generated identifiers and creation moments.
pub fn sample_models(
    first_id: String,
    first_stamp: i64,
    second_id: String,
    second_stamp: i64,
) -> (r: Vec<Model>)
    ensures
        r@.len() == 2,
        first_sample(r@[0], first_id@, first_stamp),
        second_sample(r@[1], second_id@, second_stamp),
{
    let first = Model::assemble(
        first_id,
        first_stamp,
        "DeepSeek-R1".to_owned(),
        Some("Text generation model".to_owned()),
        "text-generation".to_owned(),
        "XL 22B".to_owned(),
    );
    let second = Model::assemble(
        second_id,
        second_stamp,
        "DeepSeek-R1".to_owned(),
        Some("Compact model".to_owned()),
        "text-generation".to_owned(),
        "3.9 ML".to_owned(),
    );
    let mut out: Vec<Model> = Vec::new();
    out.push(first);
    out.push(second);
    out
}

/// Lists the tracked models. The storage layer is not wired up yet, so
/// every call fabricates the same two records, each under a fresh
/// identifier and stamped with the current moment, and never fails.
pub fn get_models() -> (r: Result<Vec<Model>, String>)
    ensures
        r is Ok,
        r->Ok_0@.len() == 2,
        fresh_record(r->Ok_0@[0]),
        fresh_record(r->Ok_0@[1]),
        first_sample(r->Ok_0@[0], r->Ok_0@[0].id@, r->Ok_0@[0].created_at),
        second_sample(r->Ok_0@[1], r->Ok_0@[1].id@, r->Ok_0@[1].created_at),
{
    let first_id = fresh_model_id();
    let first_stamp = current_timestamp_millis();
    let second_id = fresh_model_id();
    let second_stamp = current_timestamp_millis();
    Ok(sample_models(first_id, first_stamp, second_id, second_stamp))
}

/// Creates a model record from the caller-supplied fields, under a fresh
/// identifier and stamped with the current moment. Persistence is not
/// wired up yet: the record is returned but stored nowhere, and the
/// operation never fails.
pub fn create_model(
    name: String,
    description: Option<String>,
    model_type: String,
    size: String,
) -> (r: Result<Model, String>)
    ensures
        r is Ok,
        fresh_record(r->Ok_0),
        r->Ok_0.name == name,
        r->Ok_0.description == description,
        r->Ok_0.model_type == model_type,
        r->Ok_0.size == size,
{
    let id = fresh_model_id();
    let stamp = current_timestamp_millis();
    Ok(Model::assemble(id, stamp, name, description, model_type, size))
}

/// Deletes the model with the given identifier. Deletion is not wired up
/// yet: every request reports success, whatever identifier it names.
#[allow(unused_variables)]
pub fn delete_model(model_id: String) -> (r: Result<bool, String>)
    ensures
        r is Ok,
        r->Ok_0 == true,
{
    Ok(true)
}

} // verus!
