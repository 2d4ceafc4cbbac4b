//! The injector: it makes the database engine take up the frames that a
//! replica received.

use crate::replica::hook::{
    InjectorHookCtx, LIBSQL_CONTINUE_REPLICATION, LIBSQL_EXIT_REPLICATION,
};
use vstd::prelude::*;

verus! {

/// The injector of a replica, with the state of its hook.
#[derive(Clone, Copy, Debug, PartialEq, Eq, Structural)]
pub struct FrameInjector {
    /// What the hook keeps between two batches.
    pub hook_ctx: InjectorHookCtx,
}

impl FrameInjector {
    /// An injector whose hook is applying no transaction.
    pub fn new() -> (injector: FrameInjector)
        ensures
            !injector.hook_ctx.is_txn,
    {
        FrameInjector { hook_ctx: InjectorHookCtx::new() }
    }

    /// Whether `rc` is a code with which the hook ends a step. The forced
    /// write of a step returns such a code whenever the hook was called; any
    /// other code, success among them, shows a hook that is not installed.
    pub fn is_step_code(rc: u32) -> (r: bool)
        ensures
            r == (rc == LIBSQL_EXIT_REPLICATION || rc == LIBSQL_CONTINUE_REPLICATION),
    {
        rc == LIBSQL_EXIT_REPLICATION || rc == LIBSQL_CONTINUE_REPLICATION
    }

    /// Ends a step whose forced write returned `rc`: says whether
    /// replication goes on.
    pub fn step(&mut self, rc: u32) -> (go_on: bool)
        requires
            rc == LIBSQL_EXIT_REPLICATION || rc == LIBSQL_CONTINUE_REPLICATION,
        ensures
            go_on == (rc == LIBSQL_CONTINUE_REPLICATION),
            *final(self) == *old(self),
    {
        rc == LIBSQL_CONTINUE_REPLICATION
    }
}

} // verus!
