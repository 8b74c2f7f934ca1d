//! What the collector and the capture component agree on ahead of time.

use vstd::prelude::*;

verus! {

/// Name of the channel endpoint. Both sides are built with the same name;
/// nothing guards against another program that uses it too.
pub const PIPE_NAME: &'static str = "\\\\.\\pipe\\named-pipe-for-dll-hook-message";

/// The value that the capture component's self-test probe returns.
pub const SELF_TEST_VALUE: i32 = 334;

} // verus!
