//! The note record and the names it is stored under.

use vstd::prelude::*;
use crate::label::same_text;

verus! {

/// A point in time as whole seconds since the Unix epoch (UTC) plus the
/// nanoseconds within that second.
#[derive(Clone, Copy, Debug, PartialEq, Eq, Structural)]
pub struct Timestamp {
    pub secs: i64,
    pub nanos: u32,
}

/// The Unix epoch, the time a fresh note carries until it is stored.
pub open spec fn epoch() -> Timestamp {
    Timestamp { secs: 0, nanos: 0 }
}

impl Timestamp {
    pub fn epoch() -> (r: Timestamp)
        ensures
            r == epoch(),
    {
        Timestamp { secs: 0, nanos: 0 }
    }
}

/// A sticky note.
#[derive(Debug)]
pub struct Note {
    pub model: String,
    pub id: String,
    pub created_at: Timestamp,
    pub updated_at: Timestamp,
    pub content: String,
}

impl Note {
    /// A note that holds `content` and nothing else yet: no model tag, no
    /// identifier, both times at the epoch.
    pub fn new(content: String) -> (r: Note)
        ensures
            r.model@ == Seq::<char>::empty(),
            r.id@ == Seq::<char>::empty(),
            r.created_at == epoch(),
            r.updated_at == epoch(),
            r.content@ == content@,
    {
        Note {
            model: String::new(),
            id: String::new(),
            created_at: Timestamp::epoch(),
            updated_at: Timestamp::epoch(),
            content,
        }
    }
}

/// Table and column names of stored notes.
#[derive(Clone, Copy, Debug, PartialEq, Eq, Structural)]
pub enum NoteIden {
    Table,
    Model,
    Id,
    CreatedAt,
    UpdatedAt,
    Content,
}

impl NoteIden {
    /// The identifier as written in SQL.
    pub fn name(&self) -> (r: &'static str)
        ensures
            *self == NoteIden::Table ==> r@ == "notes"@,
            *self == NoteIden::Model ==> r@ == "model"@,
            *self == NoteIden::Id ==> r@ == "id"@,
            *self == NoteIden::CreatedAt ==> r@ == "created_at"@,
            *self == NoteIden::UpdatedAt ==> r@ == "updated_at"@,
            *self == NoteIden::Content ==> r@ == "content"@,
    {
        match self {
            NoteIden::Table => "notes",
            NoteIden::Model => "model",
            NoteIden::Id => "id",
            NoteIden::CreatedAt => "created_at",
            NoteIden::UpdatedAt => "updated_at",
            NoteIden::Content => "content",
        }
    }
}

/// The kinds of stored records.
#[derive(Clone, Copy, Debug, PartialEq, Eq, Structural)]
pub enum ModelType {
    TypeNote,
}

pub open spec fn model_prefix(m: ModelType) -> Seq<char> {
    match m {
        ModelType::TypeNote => "note"@,
    }
}

impl ModelType {
    /// The prefix of identifiers of this kind.
    pub fn id_prefix(&self) -> (r: String)
        ensures
            r@ == model_prefix(*self),
    {
        match self {
            ModelType::TypeNote => "note".to_owned(),
        }
    }
}

/// Any stored record.
#[derive(Debug)]
pub enum AnyModel {
    Note(Note),
}

/// Why a record's `model` tag was refused.
#[derive(Debug)]
pub enum ModelTagError {
    /// The tag names no known kind.
    Unknown(String),
    /// The record has no tag.
    Missing,
}

/// The kind a record's `model` tag names: `"note"` is a note, any other tag
/// is unknown, and a record without a tag is refused.
pub fn model_from_tag(tag: Option<&str>) -> (r: Result<ModelType, ModelTagError>)
    ensures
        match tag {
            None => r matches Err(ModelTagError::Missing),
            Some(t) => if t@ == "note"@ {
                r matches Ok(ModelType::TypeNote)
            } else {
                r matches Err(ModelTagError::Unknown(u)) && u@ == t@
            },
        },
{
    match tag {
        None => Err(ModelTagError::Missing),
        Some(t) => {
            if same_text(t, "note") {
                Ok(ModelType::TypeNote)
            } else {
                Err(ModelTagError::Unknown(t.to_owned()))
            }
        },
    }
}

} // verus!
