//! A resource-monitoring core: per-resource polling state machines that turn
//! consecutive check outcomes into new / changed / resolved alerts and fan the
//! alerts out to the notification backends bound to each resource.

use vstd::prelude::*;

pub mod fleet;
pub mod http;
pub mod notifier;
pub mod render;
pub mod sentinel;
pub mod smtp;

verus! {

} // verus!
