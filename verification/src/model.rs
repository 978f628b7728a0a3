use vstd::prelude::*;

verus! {

/// Metadata for one machine-learning model as the command layer tracks it:
/// a generated identifier, the caller-supplied text fields, and the moments
/// at which the record was created and last updated, as milliseconds since
/// the Unix epoch.
pub struct Model {
    pub id: String,
    pub name: String,
    pub description: Option<String>,
    pub model_type: String,
    pub size: String,
    pub created_at: i64,
    pub updated_at: i64,
}

/// A model identifier is a version-4 UUID rendered in its hyphenated text
/// form, which is always exactly 36 characters.
pub open spec fn valid_model_id(id: Seq<char>) -> bool {
    id.len() == 36
}

/// What holds of every record the command layer hands out: its identifier
/// is a well-formed UUID string and, since nothing has modified the record
/// yet, both timestamps carry the moment of creation.
pub open spec fn fresh_record(m: Model) -> bool {
    &&& valid_model_id(m.id@)
    &&& m.updated_at == m.created_at
}

impl Model {
    /// Assembles a record from an already-generated identifier and creation
    /// moment together with the caller-supplied fields; both timestamps are
    /// set to `stamp`.
    pub fn assemble(
        id: String,
        stamp: i64,
        name: String,
        description: Option<String>,
        model_type: String,
        size: String,
    ) -> (m: Model)
        ensures
            m.id == id,
            m.name == name,
            m.description == description,
            m.model_type == model_type,
            m.size == size,
            m.created_at == stamp,
            m.updated_at == stamp,
    {
        Model { id, name, description, model_type, size, created_at: stamp, updated_at: stamp }
    }
}

} // verus!
