//! Seeds a policy store, once at startup, from an optional JSON file that
//! holds an array of policy objects.
use vstd::prelude::*;

pub mod bootstrap;
pub mod error;
pub mod json;
pub mod path;
pub mod report;
pub mod store;

verus! {

/// The startup step that loads the configured policy file into the store
/// before the service takes requests.
pub struct InitPoliciesFairing;

impl InitPoliciesFairing {
    /// The name the step goes by among the service's startup steps.
    pub fn name(&self) -> (r: &'static str)
        ensures
            r@ == "Init Policies"@,
    {
        "Init Policies"
    }
}

} // verus!
