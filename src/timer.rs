use vstd::prelude::*;

use crate::tag::TimerTag;

verus! {

/// Arms a watchdog timer through `native`, the native arm entry point.
///
/// The tag, timeout, callback, context and flags reach `native` exactly as
/// given, in one call, and its handle comes back unchanged: what a negative
/// handle or the flags mean is the native side's business.
pub fn set_timer<F, C, N>(tag: &TimerTag, timeout: u32, func: F, arg: C, flag: u32, native: N) -> (r: i32)
    where
        N: FnOnce(&TimerTag, u32, F, C, u32) -> i32,
    requires
        native.requires((tag, timeout, func, arg, flag)),
    ensures
        native.ensures((tag, timeout, func, arg, flag), r),
{
    native(tag, timeout, func, arg, flag)
}

/// Cancels the watchdog timer `id` through `native`, the native cancel
/// entry point, which receives the handle unchanged in one call.
pub fn cancel_timer<N>(id: i32, native: N)
    where
        N: FnOnce(i32),
    requires
        native.requires((id,)),
    ensures
        native.ensures((id,), ()),
{
    native(id)
}

} // verus!
