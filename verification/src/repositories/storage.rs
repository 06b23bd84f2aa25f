use vstd::prelude::*;

verus! {

/// Why a table refused a statement.
#[derive(Clone, Copy, Debug, PartialEq, Eq, Structural)]
pub enum StorageError {
    /// A row with the same unique key is already there.
    UniqueViolation,
    /// The statement should have touched one row and found none.
    RowNotFound,
    /// The table has handed out its last identifier.
    Exhausted,
}

/// The result code that a uniqueness violation carries.
pub open spec fn unique_violation_code() -> Seq<char> {
    seq!['2', '0', '6', '7']
}

/// The result code that a full table carries.
pub open spec fn exhausted_code() -> Seq<char> {
    seq!['1', '3']
}

impl StorageError {
    /// The code of the failure as the database engine names it, where it
    /// comes from the engine.
    pub open spec fn spec_code(self) -> Option<Seq<char>> {
        match self {
            StorageError::UniqueViolation => Some(unique_violation_code()),
            StorageError::RowNotFound => None,
            StorageError::Exhausted => Some(exhausted_code()),
        }
    }

    /// The code of the failure as the database engine names it, where it
    /// comes from the engine.
    pub fn code(&self) -> (r: Option<&'static str>)
        ensures
            r is Some == self.spec_code() is Some,
            r matches Some(text) ==> text@ == self.spec_code().unwrap(),
    {
        proof {
            reveal_strlit("2067");
            reveal_strlit("13");
        }
        match self {
            StorageError::UniqueViolation => {
                assert("2067"@ =~= unique_violation_code());
                Some("2067")
            },
            StorageError::RowNotFound => None,
            StorageError::Exhausted => {
                assert("13"@ =~= exhausted_code());
                Some("13")
            },
        }
    }
}

} // verus!
