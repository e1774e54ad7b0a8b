//! Deferred GPU operations, the per-frame command queue that holds them,
//! and the output commands consumed by the windowing collaborator.
//!
//! A drawable records zero-argument GPU operations during the record phase
//! as plain [`GlCall`] values; the flush phase drains them in last-in
//! first-out order. The LIFO contract is a property of [`CommandQueue`]
//! itself, stated on `push`, `pop` and `drain`.

use vstd::prelude::*;

verus! {

/// The primitive interpretation of a draw call.
#[derive(Clone, Copy, PartialEq, Eq, Structural, Debug)]
pub enum DrawMode {
    Points,
    Triangles,
    TriangleStrip,
}

/// One deferred GPU operation. Recording stores these; flush hands them,
/// in the queue's defined order, to whatever executes against the context.
#[derive(Clone, Copy, PartialEq, Eq, Structural, Debug)]
pub enum GlCall {
    /// Set the clear color; components are 0-255 and are normalized to
    /// 0.0-1.0 at the driver boundary.
    ClearColor { red: u8, green: u8, blue: u8, alpha: u8 },
    /// Clear the color and depth buffers.
    Clear,
    /// Update the viewport to the given pixel dimensions.
    Viewport { width: i32, height: i32 },
    UseProgram { program: u32 },
    BindVertexArray { vao: u32 },
    BindBuffer { vbo: u32 },
    /// Upload the drawable's vertex data; the data itself stays with its
    /// owner and is looked up by buffer id at execution time.
    BufferData { vbo: u32, len_bytes: usize },
    EnableVertexAttribArray { location: u32 },
    VertexAttribPointer { location: u32, components: u32, stride: u32, offset_bytes: u32 },
    DrawArrays { mode: DrawMode, first: u32, count: u32 },
    /// Point diameter in whole pixels.
    PointSize { pixels: u32 },
    /// Delete a shader object; issued when its last user is released.
    DeleteShader { shader: u32 },
    /// Delete a linked program object.
    DeleteProgram { program: u32 },
}

/// A request recorded this frame for the windowing collaborator,
/// consumed once by the driver.
#[derive(Clone, Copy, PartialEq, Eq, Structural, Debug)]
pub enum Command {
    Exit,
    CursorGrab(bool),
    CursorVisible(bool),
}

/// The per-frame queue of deferred operations.
///
/// Draining order is last-in first-out: the most recently recorded
/// operation executes first. This is a load-bearing ordering contract;
/// callers that depend on relative draw order must record accordingly.
pub struct CommandQueue {
    items: Vec<GlCall>,
}

impl View for CommandQueue {
    type V = Seq<GlCall>;

    closed spec fn view(&self) -> Seq<GlCall> {
        self.items@
    }
}

impl CommandQueue {
    pub fn new() -> (q: Self)
        ensures
            q@ == Seq::<GlCall>::empty(),
    {
        CommandQueue { items: Vec::new() }
    }

    pub fn len(&self) -> (n: usize)
        ensures
            n == self@.len(),
    {
        self.items.len()
    }

    pub fn is_empty(&self) -> (b: bool)
        ensures
            b == (self@.len() == 0),
    {
        self.items.len() == 0
    }

    /// Record one deferred operation at the top of the queue.
    pub fn push(&mut self, call: GlCall)
        ensures
            final(self)@ == old(self)@.push(call),
    {
        self.items.push(call);
    }

    /// Remove and return the most recently recorded operation.
    pub fn pop(&mut self) -> (r: Option<GlCall>)
        ensures
            old(self)@.len() == 0 ==> r is None && final(self)@ == old(self)@,
            old(self)@.len() > 0 ==> r == Some(old(self)@.last()) && final(self)@ == old(
                self,
            )@.drop_last(),
    {
        self.items.pop()
    }

    /// Drain the whole queue in its defined order: the result lists the
    /// recorded operations in reverse recording order, and the queue is
    /// left empty.
    pub fn drain(&mut self) -> (r: Vec<GlCall>)
        ensures
            r@ == old(self)@.reverse(),
            final(self)@ == Seq::<GlCall>::empty(),
    {
        let ghost recorded = self@;
        let mut out: Vec<GlCall> = Vec::new();
        while !self.is_empty()
            invariant
                out@.len() + self@.len() == recorded.len(),
                self@ == recorded.take(self@.len() as int),
                forall|i: int|
                    0 <= i < out@.len() ==> out@[i] == recorded[recorded.len() - 1 - i],
            decreases self@.len(),
        {
            let next = self.pop();
            match next {
                Some(call) => {
                    out.push(call);
                },
                None => {
                    // unreachable: the loop guard keeps the queue non-empty
                    proof {
                        assert(false);
                    }
                },
            }
        }
        proof {
            assert(out@ =~= recorded.reverse());
        }
        out
    }
}

/// LIFO law: a flush-time drain executes the recorded operations in
/// reverse recording order. For a recording `[A, B, C]` the drained order
/// is `[C, B, A]`; in general the operation drained at position `i` is the
/// one recorded at position `len - 1 - i`.
pub proof fn lemma_drain_is_lifo(recorded: Seq<GlCall>)
    ensures
        recorded.reverse().len() == recorded.len(),
        forall|i: int|
            0 <= i < recorded.len() ==> recorded.reverse()[i] == recorded[recorded.len() - 1 - i],
{
}

} // verus!
