//! The recording surface handed to drawables, the drawable capability
//! itself, and a sample drawable.
//!
//! During the record phase a drawable may acquire GPU handles — lazily,
//! through its one-shot caches and the shader registry — and push deferred
//! operations into the context's queue. It must not execute draw calls
//! itself; those run at the flush point, in the queue's order.

use crate::commands::{CommandQueue, DrawMode, GlCall};
use crate::driver::GlDriver;
use crate::errors::GlError;
use crate::shaders::{refs_below, Shader, ShaderEntryModel, ShaderRegistry};
use crate::wrappers::{ProgramState, ProgramWrapper};
use vstd::prelude::*;

verus! {

/// What a drawable records into: the shared shader registry and the
/// per-frame deferred command queue.
pub struct RendererContext {
    pub registry: ShaderRegistry,
    pub command_queue: CommandQueue,
}

impl RendererContext {
    pub open spec fn wf(&self) -> bool {
        self.registry.wf()
    }

    pub fn new() -> (r: Self)
        ensures
            r.wf(),
            r.registry@ == Seq::<ShaderEntryModel>::empty(),
            r.command_queue@ == Seq::<GlCall>::empty(),
    {
        RendererContext { registry: ShaderRegistry::new(), command_queue: CommandQueue::new() }
    }

    /// Record one deferred operation at the top of the queue; the
    /// registry is untouched.
    pub fn add_commands(&mut self, call: GlCall)
        ensures
            final(self).command_queue@ == old(self).command_queue@.push(call),
            final(self).registry == old(self).registry,
    {
        self.command_queue.push(call);
    }
}

/// The capability an object implements to participate in recording.
pub trait Drawable<C: GlDriver> {
    /// Record this frame's operations: acquire whatever handles the
    /// object's caches still need, then enqueue deferred operations.
    /// Resource acquisition can fail; errors surface here, during the
    /// record phase — a deferred operation has no return channel.
    fn draw(&mut self, ctx: &mut RendererContext, driver: &mut C) -> (r: Result<(), GlError>)
        requires
            old(ctx).wf(),
            refs_below(old(ctx).registry@, u64::MAX - 1),
        ensures
            final(ctx).wf(),
    ;
}

/// A sample drawable: one sized point drawn with the program linked from
/// the two sources it was created with.
pub struct TestGameObject {
    program: ProgramWrapper,
}

impl TestGameObject {
    pub closed spec fn program(&self) -> ProgramWrapper {
        self.program
    }

    /// Build the drawable ahead of context availability: nothing is
    /// compiled until its first draw.
    pub fn new(vertex_source: &str, fragment_source: &str) -> (o: Self)
        ensures
            o.program().shaders_wf(),
            o.program().state() is Uninitialized,
            o.program().vertex_shader().source() == vertex_source@,
            o.program().fragment_shader().source() == fragment_source@,
    {
        let vertex = Shader::create_vertex_shader(vertex_source);
        let fragment = Shader::create_fragment_shader(fragment_source);
        TestGameObject { program: ProgramWrapper::new(vertex, fragment) }
    }
}

impl<C: GlDriver> Drawable<C> for TestGameObject {
    /// On success exactly this drawable's three operations are appended,
    /// capturing the program identifier now memoized in its cache; on a
    /// failed acquisition the queue is untouched and the memoized error is
    /// returned. No GPU call is executed here: everything is deferred.
    fn draw(&mut self, ctx: &mut RendererContext, driver: &mut C) -> (r: Result<(), GlError>)
        ensures
            r is Ok ==> ({
                &&& final(self).program().state() matches ProgramState::Linked(p)
                    && final(ctx).command_queue@ == old(ctx).command_queue@ + seq![
                    GlCall::PointSize { pixels: 10 },
                    GlCall::DrawArrays { mode: DrawMode::Points, first: 0, count: 1 },
                    GlCall::UseProgram { program: p.program_id() },
                ]
            }),
            r matches Err(e) ==> ({
                &&& final(ctx).command_queue@ == old(ctx).command_queue@
                &&& final(self).program().state() matches ProgramState::Failed(stored) && stored
                    == e
            }),
    {
        let program_id = match self.program.get_program_id(&mut ctx.registry, driver) {
            Ok(id) => id,
            Err(e) => {
                return Err(e);
            },
        };
        // the queue drains last-in first-out, so operations are recorded in
        // reverse of their intended execution order
        ctx.add_commands(GlCall::PointSize { pixels: 10 });
        ctx.add_commands(GlCall::DrawArrays { mode: DrawMode::Points, first: 0, count: 1 });
        ctx.add_commands(GlCall::UseProgram { program: program_id });
        proof {
            assert(ctx.command_queue@ =~= old(ctx).command_queue@ + seq![
                GlCall::PointSize { pixels: 10 },
                GlCall::DrawArrays { mode: DrawMode::Points, first: 0, count: 1 },
                GlCall::UseProgram { program: program_id },
            ]);
        }
        Ok(())
    }
}

} // verus!
