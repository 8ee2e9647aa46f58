//! What is known of the records before any of them is seen.

use vstd::prelude::*;
use crate::type_def::{TypeDef, TypeDefView};

verus! {

/// The static environment that a tree is built against: the declared type of
/// the record under transformation.
#[derive(Clone, Copy, Debug, PartialEq, Eq, Structural)]
pub struct ExternalEnv {
    record: TypeDef,
}

/// The model of an [`ExternalEnv`].
pub struct ExternalEnvView {
    pub record: TypeDefView,
}

impl View for ExternalEnv {
    type V = ExternalEnvView;

    closed spec fn view(&self) -> ExternalEnvView {
        ExternalEnvView { record: self.record@ }
    }
}

impl ExternalEnv {
    /// The environment in which the record has the type `record`.
    pub fn new(record: TypeDef) -> (env: ExternalEnv)
        ensures
            env@.record == record@,
    {
        ExternalEnv { record }
    }

    /// The declared type of the record.
    pub fn record(&self) -> (def: TypeDef)
        ensures
            def@ == self@.record,
    {
        self.record
    }
}

} // verus!
