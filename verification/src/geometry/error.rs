//! The ways in which a construction can fail.
use vstd::prelude::*;

verus! {

/// Why a shape could not be built.
#[derive(Clone, Copy, Debug, PartialEq, Eq, Structural)]
pub enum CurvyErrorKind {
    /// The two points that should span the shape are the same point.
    SamePoints,
    /// No circle fits what was given: the lines that should meet in its
    /// centre, or in its corner, have no single point in common.
    Undefinable,
    /// Two neighbouring edges of an offset shape have no single point in
    /// common in which to join.
    Unjoinable,
    /// Fewer corners are left of an offset shape than such a shape has.
    Collapsed,
    /// The operation has no algorithm yet.
    Unsupported,
}

/// The failure of a construction.
#[derive(Clone, Copy, Debug, PartialEq, Eq, Structural)]
pub struct CurvyError {
    pub kind: CurvyErrorKind,
}

pub type CurvyResult<T> = Result<T, CurvyError>;

impl CurvyError {
    pub open spec fn same_points() -> CurvyError {
        CurvyError { kind: CurvyErrorKind::SamePoints }
    }

    pub open spec fn undefinable() -> CurvyError {
        CurvyError { kind: CurvyErrorKind::Undefinable }
    }

    pub open spec fn unjoinable() -> CurvyError {
        CurvyError { kind: CurvyErrorKind::Unjoinable }
    }

    pub open spec fn collapsed() -> CurvyError {
        CurvyError { kind: CurvyErrorKind::Collapsed }
    }

    pub open spec fn unsupported() -> CurvyError {
        CurvyError { kind: CurvyErrorKind::Unsupported }
    }

    /// The text that describes the failure.
    pub open spec fn spec_message(self) -> Seq<char> {
        match self.kind {
            CurvyErrorKind::SamePoints => "Start, stop points are the same"@,
            CurvyErrorKind::Undefinable => "Undefinable circular arc"@,
            CurvyErrorKind::Unjoinable => "Offset edges do not meet in one point"@,
            CurvyErrorKind::Collapsed => "Too few corners are left"@,
            CurvyErrorKind::Unsupported => "Unsupported operation"@,
        }
    }

    /// The text that describes the failure.
    pub fn message(&self) -> (text: String)
        ensures
            text@ == self.spec_message(),
    {
        match self.kind {
            CurvyErrorKind::SamePoints => "Start, stop points are the same".to_string(),
            CurvyErrorKind::Undefinable => "Undefinable circular arc".to_string(),
            CurvyErrorKind::Unjoinable => "Offset edges do not meet in one point".to_string(),
            CurvyErrorKind::Collapsed => "Too few corners are left".to_string(),
            CurvyErrorKind::Unsupported => "Unsupported operation".to_string(),
        }
    }
}

} // verus!
