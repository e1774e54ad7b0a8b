//! The callback surface a game implements for the run loop.

use crate::application_context::ApplicationContext;
use crate::driver::GlDriver;
use crate::shaders::refs_below;
use vstd::prelude::*;

verus! {

/// Implemented by the application; the external run loop calls `setup`
/// once when the context becomes available, `game_loop` once per frame
/// tick between input delivery and flush, and `teardown` once before the
/// run ends.
pub trait Game<C: GlDriver> {
    /// One frame tick: read input, record draw requests and output
    /// commands.
    fn game_loop(&mut self, context: &mut ApplicationContext, driver: &mut C)
        requires
            old(context).wf(),
            refs_below(old(context).renderer().registry@, u64::MAX - 1),
        ensures
            final(context).wf(),
    ;

    /// Called once, after the graphics context exists.
    fn setup(&mut self, context: &mut ApplicationContext)
        requires
            old(context).wf(),
        ensures
            final(context).wf(),
    {
    }

    /// Called once, before the run ends.
    fn teardown(&mut self, context: &mut ApplicationContext)
        requires
            old(context).wf(),
        ensures
            final(context).wf(),
    {
    }
}

} // verus!
