use vstd::prelude::*;

verus! {

/// Why a service did not start. `E` is the error of the components that the driver builds.
#[derive(Debug, PartialEq, Eq)]
pub enum ServiceError<E> {
    /// The startup itself refused.
    Other(String),
    /// A component could not be built.
    Component(E),
}

} // verus!
