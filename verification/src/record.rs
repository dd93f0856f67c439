//! A record as a stream delivers it: named fields, each with the text it
//! carries.

use vstd::prelude::*;
use vstd::string::*;
use crate::json::{json_of_text, same_text, Json};

verus! {

/// One field of a record. The value is its text, or nothing where the bus
/// delivered something that is no text.
#[derive(Debug, Clone, PartialEq, Eq)]
pub struct Field {
    pub name: String,
    pub value: Option<String>,
}

/// The fields of one stream entry. Where a name occurs more than once, the
/// first field of that name counts.
#[derive(Debug, Clone, PartialEq, Eq)]
pub struct Record {
    pub fields: Vec<Field>,
}

/// Why a record could not be read as an event of its kind.
#[derive(Debug, Clone, Copy, PartialEq, Eq, Structural)]
pub enum DecodeError {
    /// A field that the kind requires is not in the record.
    MissingField,
    /// The field is there, but its value is no text.
    NotText,
    /// The field's text is no JSON.
    NotJson,
    /// The JSON lacks a member or holds one of the wrong type.
    WrongShape,
}

/// The first field from index `from` on that goes by `name`.
pub open spec fn field_from(fields: Seq<Field>, name: Seq<char>, from: int) -> Option<Field>
    decreases fields.len() - from,
{
    if from < 0 || from >= fields.len() {
        None
    } else if fields[from].name@ == name {
        Some(fields[from])
    } else {
        field_from(fields, name, from + 1)
    }
}

impl Record {
    /// The field that goes by `name`.
    pub open spec fn field(self, name: Seq<char>) -> Option<Field> {
        field_from(self.fields@, name, 0)
    }

    /// The JSON that the field `name` carries, or the reason why there is
    /// none.
    pub open spec fn payload(self, name: Seq<char>) -> Result<Json, DecodeError> {
        match self.field(name) {
            None => Err(DecodeError::MissingField),
            Some(field) => match field.value {
                None => Err(DecodeError::NotText),
                Some(text) => match json_of_text(text@) {
                    None => Err(DecodeError::NotJson),
                    Some(j) => Ok(j),
                },
            },
        }
    }

    /// A record without fields.
    pub fn new() -> (r: Record)
        ensures
            r.fields@.len() == 0,
    {
        Record { fields: Vec::new() }
    }

    /// Adds a field at the end.
    pub fn push(&mut self, name: String, value: Option<String>)
        ensures
            final(self).fields@ == old(self).fields@.push(Field { name, value }),
    {
        self.fields.push(Field { name, value });
    }

    /// Looks a field up by its name.
    pub fn get(&self, name: &str) -> (r: Option<&Field>)
        ensures
            match r {
                Some(f) => self.field(name@) == Some(*f),
                None => self.field(name@) is None,
            },
    {
        let mut i: usize = 0;
        while i < self.fields.len()
            invariant
                i <= self.fields@.len(),
                self.field(name@) == field_from(self.fields@, name@, i as int),
            decreases self.fields@.len() - i,
        {
            if same_text(self.fields[i].name.as_str(), name) {
                return Some(&self.fields[i]);
            }
            i = i + 1;
        }
        None
    }

    /// Reads the JSON that the field `name` carries.
    pub fn read_payload(&self, name: &str) -> (r: Result<Json, DecodeError>)
        ensures
            r == self.payload(name@),
    {
        match self.get(name) {
            None => Err(DecodeError::MissingField),
            Some(field) => match &field.value {
                None => Err(DecodeError::NotText),
                Some(text) => match Json::parse(text.as_str()) {
                    None => Err(DecodeError::NotJson),
                    Some(j) => Ok(j),
                },
            },
        }
    }
}

} // verus!
