//! Validation error bodies as FastAPI returns them for rejected requests.

use vstd::prelude::*;

use crate::text::{signed_decimal_string, spec_signed_decimal};

verus! {

/// A segment within a validation error location path.
#[derive(Debug, Clone, PartialEq, Eq)]
pub enum LocationSegment {
    /// A string field or key name.
    String(String),
    /// An integer array index.
    Integer(i64),
    /// Any other JSON value, as its JSON text.
    Other(String),
}

/// How a segment that is not an index reads in a path.
pub open spec fn segment_text(s: LocationSegment) -> Seq<char> {
    match s {
        LocationSegment::String(v) => v@,
        LocationSegment::Integer(i) => spec_signed_decimal(i as int),
        LocationSegment::Other(text) => text@,
    }
}

/// The location path of a validation error: names joined with `.`, and
/// each index as `[index]` attached with no separator.
pub open spec fn spec_loc_path(loc: Seq<LocationSegment>) -> Seq<char>
    decreases loc.len(),
{
    if loc.len() == 0 {
        Seq::empty()
    } else {
        let prev = spec_loc_path(loc.drop_last());
        match loc.last() {
            LocationSegment::Integer(i) => prev + seq!['['] + spec_signed_decimal(i as int) + seq![']'],
            other => if prev.len() > 0 {
                prev + seq!['.'] + segment_text(other)
            } else {
                segment_text(other)
            },
        }
    }
}

/// A single validation error from FastAPI.
#[derive(Debug, Clone, PartialEq)]
pub struct ValidationError {
    /// Location of the error as a path through the request structure.
    pub loc: Vec<LocationSegment>,
    /// Human-readable error message.
    pub msg: String,
    /// Machine-readable error type identifier (e.g. `"value_error.missing"`).
    pub error_type: String,
    /// The input value that failed validation.
    pub input: Option<serde_json::Value>,
    /// Optional context providing additional details about the error.
    pub ctx: Option<serde_json::Value>,
}

impl ValidationError {
    /// Renders the location as a dotted/indexed path, e.g. `"body.items[0].name"`.
    pub fn loc_path(&self) -> (r: String)
        ensures
            r@ == spec_loc_path(self.loc@),
    {
        let mut path = String::new();
        let n = self.loc.len();
        let mut i: usize = 0;
        while i < n
            invariant
                n == self.loc@.len(),
                i <= n,
                path@ == spec_loc_path(self.loc@.take(i as int)),
            decreases n - i,
        {
            proof {
                assert(self.loc@.take(i + 1).drop_last() =~= self.loc@.take(i as int));
                assert(self.loc@.take(i + 1).last() == self.loc@[i as int]);
                reveal_strlit("[");
                reveal_strlit("]");
                reveal_strlit(".");
            }
            let ghost prev = path@;
            match &self.loc[i] {
                LocationSegment::Integer(index) => {
                    path.append("[");
                    let digits = signed_decimal_string(*index);
                    path.append(digits.as_str());
                    path.append("]");
                },
                LocationSegment::String(v) => {
                    if !path.as_str().is_empty() {
                        path.append(".");
                    }
                    path.append(v.as_str());
                },
                LocationSegment::Other(text) => {
                    if !path.as_str().is_empty() {
                        path.append(".");
                    }
                    path.append(text.as_str());
                },
            }
            assert(path@ =~= spec_loc_path(self.loc@.take(i + 1)));
            i = i + 1;
        }
        assert(self.loc@.take(n as int) =~= self.loc@);
        path
    }
}

/// The `detail` payload of an [`HTTPValidationError`]: structured errors or
/// a plain message.
#[derive(Debug, Clone, PartialEq)]
pub enum Detail {
    /// Structured list of validation errors (the common FastAPI shape).
    Errors(Vec<ValidationError>),
    /// A plain string message.
    Message(String),
}

impl Default for Detail {
    /// No errors.
    fn default() -> (r: Self)
        ensures
            r matches Detail::Errors(v) && v@.len() == 0,
    {
        Detail::Errors(Vec::new())
    }
}

/// The body of a validation failure (HTTP 422).
#[derive(Debug, Clone, PartialEq)]
pub struct HTTPValidationError {
    /// Validation detail: either structured errors or a plain message.
    pub detail: Detail,
}

impl HTTPValidationError {
    /// The structured validation errors; none for a plain message.
    pub fn errors(&self) -> (r: &[ValidationError])
        ensures
            r@ == match self.detail {
                Detail::Errors(v) => v@,
                Detail::Message(_) => Seq::empty(),
            },
    {
        match &self.detail {
            Detail::Errors(errors) => errors.as_slice(),
            Detail::Message(_) => &[],
        }
    }

    /// The plain message, when the detail is one.
    pub fn message(&self) -> (r: Option<&str>)
        ensures
            match self.detail {
                Detail::Message(m) => r matches Some(s) && s@ == m@,
                Detail::Errors(_) => r is None,
            },
    {
        match &self.detail {
            Detail::Message(message) => Some(message.as_str()),
            Detail::Errors(_) => None,
        }
    }
}

} // verus!
