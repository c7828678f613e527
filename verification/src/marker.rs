//! Zero-sized tags that tell the device families apart in the type of a handle.

use vstd::prelude::*;

verus! {

/// The AD9833 and AD9837 family.
#[derive(Debug)]
pub struct Ad9833Ad9837(());

} // verus!
