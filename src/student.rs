use vstd::prelude::*;
use crate::error::AggregationError;
use crate::ids::{parse_uuid, parsed_uuid, random_uuid, uuid_version};

verus! {

/// A student, identified by a version-4 UUID held as its 128-bit value.
#[derive(Clone, Debug)]
pub struct Student {
    pub id: u128,
    pub firstname: String,
    pub name: String,
    pub domain: String,
}

/// Failure of the student directory.
#[derive(Clone, Debug, PartialEq, Eq)]
pub enum StudentError {
    NotFound,
    DatabaseError(String),
    InvalidData(String),
}

pub struct CreateStudentRequest {
    pub firstname: String,
    pub name: String,
    pub domain: String,
}

/// The fields to change in a student record; an absent field is kept.
pub struct UpdateStudentRequest {
    pub firstname: Option<String>,
    pub name: Option<String>,
    pub domain: Option<String>,
}

/// Reads a student identifier; a malformed one is rejected as invalid input.
pub fn student_id_from_text(s: &str) -> (r: Result<u128, AggregationError>)
    ensures
        parsed_uuid(s@) is None ==> r == Err::<u128, AggregationError>(
            AggregationError::InvalidInput,
        ),
        parsed_uuid(s@) is Some ==> r == Ok::<u128, AggregationError>(parsed_uuid(s@)->Some_0),
{
    match parse_uuid(s) {
        Some(id) => Ok(id),
        None => Err(AggregationError::InvalidInput),
    }
}

impl Student {
    /// A new student under a fresh random identifier.
    pub fn new(firstname: String, name: String, domain: String) -> (r: Student)
        ensures
            r.firstname == firstname,
            r.name == name,
            r.domain == domain,
            uuid_version(r.id) == 4,
    {
        Student { id: random_uuid(), firstname, name, domain }
    }

    /// The record after `update`: each field given replaces the current one.
    pub fn with_update(self, update: UpdateStudentRequest) -> (r: Student)
        ensures
            r.id == self.id,
            r.firstname == (match update.firstname {
                Some(f) => f,
                None => self.firstname,
            }),
            r.name == (match update.name {
                Some(n) => n,
                None => self.name,
            }),
            r.domain == (match update.domain {
                Some(d) => d,
                None => self.domain,
            }),
    {
        let mut current = self;
        if let Some(f) = update.firstname {
            current.firstname = f;
        }
        if let Some(n) = update.name {
            current.name = n;
        }
        if let Some(d) = update.domain {
            current.domain = d;
        }
        current
    }
}

impl CreateStudentRequest {
    pub fn into_student(self) -> (r: Student)
        ensures
            r.firstname == self.firstname,
            r.name == self.name,
            r.domain == self.domain,
            uuid_version(r.id) == 4,
    {
        Student::new(self.firstname, self.name, self.domain)
    }
}

} // verus!
