use vstd::prelude::*;

verus! {

/// The failure conditions that the registry's fallible operations report.
///
/// Absence of a component value is not an error: lookups report it through
/// `Option`.  Only conditions the caller must act on are listed here.
#[derive(Clone, Copy, Debug, PartialEq, Eq, Structural)]
pub enum Error {
    /// A component map was requested under a tag that was never registered.
    UnregisteredComponent,
    /// A conflicting access to the same component map was still outstanding:
    /// exclusive access was requested while any access was held, or any
    /// access was requested while exclusive access was held.
    BorrowConflict,
}

impl Error {
    /// A short description of the failure, for reporting to a human.
    pub fn message(&self) -> (r: &'static str)
        ensures
            self is UnregisteredComponent ==> r@ == "unregistered component type"@,
            self is BorrowConflict ==> r@ == "conflicting access to component map"@,
    {
        match self {
            Error::UnregisteredComponent => "unregistered component type",
            Error::BorrowConflict => "conflicting access to component map",
        }
    }
}

} // verus!
