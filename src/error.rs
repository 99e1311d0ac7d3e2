use vstd::prelude::*;

verus! {

/// The failures that the store reports to its callers.
#[derive(Debug, PartialEq, Eq)]
pub enum KvError {
    /// Invalid startup parameters, such as zero shards or zero servers.
    Configuration,
    /// The storage engine could not complete an operation; holds its message.
    StorageFailure(String),
}

} // verus!
