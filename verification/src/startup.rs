//! Values that the service is started with.

use vstd::prelude::*;

verus! {

/// The address under which the outside reaches the service; confirmation
/// links are built below it.
#[derive(Clone, Debug)]
pub struct ApplicationBaseUrl(pub String);

} // verus!
