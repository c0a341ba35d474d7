//! Operating modes for peripherals.
use vstd::prelude::*;

verus! {

/// Operating mode for a peripheral.
pub trait Mode {}

/// Blocking mode.
pub struct Blocking;

/// Async mode.
pub struct Async;

impl Mode for Blocking {}

impl Mode for Async {}

} // verus!
