use vstd::prelude::*;

verus! {

/// The address under which visitors reach the service.
#[derive(Debug)]
pub struct ApplicationBaseUrl(pub String);

} // verus!
