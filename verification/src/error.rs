//! The error taxonomy of the middleware and the result type every fallible
//! operation returns.

use vstd::prelude::*;

verus! {

/// Why an operation failed.
#[derive(Clone, Debug, Eq)]
pub enum DdsError {
    /// An unspecified failure.
    Error,
    /// The operation needs an enabled entity.
    NotEnabled,
    /// A structural precondition does not hold; the text says which.
    PreconditionNotMet(String),
    /// A set of policies contradicts itself.
    InconsistentPolicy,
    /// A policy that is frozen after enabling would change.
    ImmutablePolicy,
    /// A resource limit is exhausted.
    OutOfResources,
    /// A bounded wait elapsed.
    Timeout,
    /// A read or take found nothing that matches.
    NoData,
    /// The entity was already deleted.
    AlreadyDeleted,
    /// An argument is malformed.
    BadParameter,
    /// The feature is not offered.
    Unsupported,
}

impl PartialEq for DdsError {
    fn eq(&self, other: &DdsError) -> (r: bool) {
        match (self, other) {
            (DdsError::Error, DdsError::Error) => true,
            (DdsError::NotEnabled, DdsError::NotEnabled) => true,
            (DdsError::PreconditionNotMet(a), DdsError::PreconditionNotMet(b)) => {
                let r: bool = *a == *b;
                r
            },
            (DdsError::InconsistentPolicy, DdsError::InconsistentPolicy) => true,
            (DdsError::ImmutablePolicy, DdsError::ImmutablePolicy) => true,
            (DdsError::OutOfResources, DdsError::OutOfResources) => true,
            (DdsError::Timeout, DdsError::Timeout) => true,
            (DdsError::NoData, DdsError::NoData) => true,
            (DdsError::AlreadyDeleted, DdsError::AlreadyDeleted) => true,
            (DdsError::BadParameter, DdsError::BadParameter) => true,
            (DdsError::Unsupported, DdsError::Unsupported) => true,
            _ => false,
        }
    }
}

impl vstd::std_specs::cmp::PartialEqSpecImpl for DdsError {
    open spec fn obeys_eq_spec() -> bool {
        true
    }

    open spec fn eq_spec(&self, other: &DdsError) -> bool {
        match (self, other) {
            (DdsError::Error, DdsError::Error) => true,
            (DdsError::NotEnabled, DdsError::NotEnabled) => true,
            (DdsError::PreconditionNotMet(a), DdsError::PreconditionNotMet(b)) => a@ == b@,
            (DdsError::InconsistentPolicy, DdsError::InconsistentPolicy) => true,
            (DdsError::ImmutablePolicy, DdsError::ImmutablePolicy) => true,
            (DdsError::OutOfResources, DdsError::OutOfResources) => true,
            (DdsError::Timeout, DdsError::Timeout) => true,
            (DdsError::NoData, DdsError::NoData) => true,
            (DdsError::AlreadyDeleted, DdsError::AlreadyDeleted) => true,
            (DdsError::BadParameter, DdsError::BadParameter) => true,
            (DdsError::Unsupported, DdsError::Unsupported) => true,
            _ => false,
        }
    }
}

/// What every fallible middleware operation returns.
pub type DdsResult<T> = Result<T, DdsError>;


/// A reference that may outlive its target: a deleted target answers every
/// access with `AlreadyDeleted`.
pub struct MaybeValidRef<'a, T>(pub Option<&'a T>);

impl<'a, T> MaybeValidRef<'a, T> {
    /// The target, or `AlreadyDeleted` when it is gone.
    pub fn value(&self) -> (r: Result<&T, DdsError>)
        ensures
            match r {
                Ok(v) => self.0 matches Option::Some(t) && v == t,
                Err(e) => self.0 is None && e == DdsError::AlreadyDeleted,
            },
    {
        match self.0 {
            Option::Some(t) => Ok(t),
            Option::None => Err(DdsError::AlreadyDeleted),
        }
    }
}

} // verus!
