//! The per-frame application state machine.
//!
//! The external driver delivers input, the application records draw
//! requests and output commands, and `draw` is the single flush point: it
//! short-circuits on a sticky error, otherwise applies a changed
//! background color once, clears the buffers, and emits the recorded
//! operations in the queue's last-in first-out order for the driver to
//! execute.

use crate::commands::{Command, GlCall};
use crate::drawables::{Drawable, RendererContext};
use crate::driver::GlDriver;
use crate::errors::GlError;
use crate::input::{Event, InputEventSet, KeyCode};
use crate::mut_cell::MutCell;
use crate::shaders::{refs_below, ShaderEntryModel};
use vstd::prelude::*;

verus! {

/// The background clear color: 0-255 components, normalized to 0.0-1.0
/// at the driver boundary.
#[derive(Clone, Copy, PartialEq, Eq, Structural, Debug)]
pub struct InternalColor {
    pub red: u8,
    pub green: u8,
    pub blue: u8,
    pub alpha: u8,
}

/// The background a fresh context starts with: a dark gray, mostly opaque.
pub open spec fn default_background() -> InternalColor {
    InternalColor { red: 26, green: 26, blue: 26, alpha: 230 }
}

impl Default for InternalColor {
    fn default() -> (c: Self)
        ensures
            c == default_background(),
    {
        InternalColor { red: 26, green: 26, blue: 26, alpha: 230 }
    }
}

/// The clear-color operation for this color value.
pub open spec fn clear_color_call(color: InternalColor) -> GlCall {
    GlCall::ClearColor {
        red: color.red,
        green: color.green,
        blue: color.blue,
        alpha: color.alpha,
    }
}

/// What a flush emits before the recorded queue: the clear color exactly
/// when it changed, then always the buffer clear.
pub open spec fn flush_prefix(color: InternalColor, dirty: bool) -> Seq<GlCall> {
    if dirty {
        seq![clear_color_call(color), GlCall::Clear]
    } else {
        seq![GlCall::Clear]
    }
}

/// Everything a flush emits: the prefix, then the recorded operations in
/// last-in first-out order.
pub open spec fn flush_output(color: InternalColor, dirty: bool, recorded: Seq<GlCall>) -> Seq<
    GlCall,
> {
    flush_prefix(color, dirty) + recorded.reverse()
}

/// The per-frame application state: accumulated input facts, pending
/// output commands, the change-tracked background color, the recording
/// surface, and the sticky exit status.
pub struct ApplicationContext {
    input_events: InputEventSet,
    output_commands: Vec<Command>,
    background_color: MutCell<InternalColor>,
    pub renderer_context: RendererContext,
    exit_status: Result<(), GlError>,
}

impl ApplicationContext {
    pub closed spec fn events(&self) -> Set<Event> {
        self.input_events@
    }

    pub closed spec fn commands(&self) -> Seq<Command> {
        self.output_commands@
    }

    pub closed spec fn color(&self) -> InternalColor {
        self.background_color.current()
    }

    pub closed spec fn color_dirty(&self) -> bool {
        self.background_color.is_dirty()
    }

    pub closed spec fn exit_status(&self) -> Result<(), GlError> {
        self.exit_status
    }

    pub closed spec fn renderer(&self) -> RendererContext {
        self.renderer_context
    }

    pub open spec fn queue(&self) -> Seq<GlCall> {
        self.renderer().command_queue@
    }

    pub open spec fn wf(&self) -> bool {
        self.renderer().wf()
    }

    /// Everything but the pending output commands agrees between `a` and
    /// `b`.
    pub open spec fn same_but_commands(a: ApplicationContext, b: ApplicationContext) -> bool {
        &&& a.events() == b.events()
        &&& a.color() == b.color()
        &&& a.color_dirty() == b.color_dirty()
        &&& a.exit_status() == b.exit_status()
        &&& a.renderer() == b.renderer()
    }

    /// Everything but the background color agrees between `a` and `b`.
    pub open spec fn same_but_color(a: ApplicationContext, b: ApplicationContext) -> bool {
        &&& a.events() == b.events()
        &&& a.commands() == b.commands()
        &&& a.exit_status() == b.exit_status()
        &&& a.renderer() == b.renderer()
    }

    /// Everything but the input facts agrees between `a` and `b`.
    pub open spec fn same_but_events(a: ApplicationContext, b: ApplicationContext) -> bool {
        &&& a.commands() == b.commands()
        &&& a.color() == b.color()
        &&& a.color_dirty() == b.color_dirty()
        &&& a.exit_status() == b.exit_status()
        &&& a.renderer() == b.renderer()
    }

    /// Everything but the exit status agrees between `a` and `b`.
    pub open spec fn same_but_exit_status(a: ApplicationContext, b: ApplicationContext) -> bool {
        &&& a.events() == b.events()
        &&& a.commands() == b.commands()
        &&& a.color() == b.color()
        &&& a.color_dirty() == b.color_dirty()
        &&& a.renderer() == b.renderer()
    }

    /// A fresh frame state: nothing recorded, default background (dirty,
    /// so the first flush applies it), no input facts, no error.
    pub fn new() -> (c: Self)
        ensures
            c.wf(),
            c.events() == Set::<Event>::empty(),
            c.commands() == Seq::<Command>::empty(),
            c.color() == default_background(),
            c.color_dirty(),
            c.exit_status() == Ok::<(), GlError>(()),
            c.queue() == Seq::<GlCall>::empty(),
            c.renderer().registry@ == Seq::<ShaderEntryModel>::empty(),
    {
        ApplicationContext {
            input_events: InputEventSet::new(),
            output_commands: Vec::new(),
            background_color: MutCell::new(InternalColor::default()),
            renderer_context: RendererContext::new(),
            exit_status: Ok(()),
        }
    }

    /// Ask the windowing collaborator to end the run after this frame.
    pub fn exit(&mut self)
        ensures
            final(self).commands() == old(self).commands().push(Command::Exit),
            Self::same_but_commands(*final(self), *old(self)),
    {
        self.output_commands.push(Command::Exit);
    }

    /// Ask the windowing collaborator to grab or release the cursor.
    pub fn set_cursor_grab(&mut self, enable: bool)
        ensures
            final(self).commands() == old(self).commands().push(Command::CursorGrab(enable)),
            Self::same_but_commands(*final(self), *old(self)),
    {
        self.output_commands.push(Command::CursorGrab(enable));
    }

    /// Ask the windowing collaborator to show or hide the cursor.
    pub fn set_cursor_visible(&mut self, enable: bool)
        ensures
            final(self).commands() == old(self).commands().push(Command::CursorVisible(enable)),
            Self::same_but_commands(*final(self), *old(self)),
    {
        self.output_commands.push(Command::CursorVisible(enable));
    }

    /// Replace the background color and mark it changed; the next flush
    /// applies the latest value once. No request is deduplicated here:
    /// repeated calls simply overwrite the stored value.
    pub fn set_background_color(&mut self, red: u8, green: u8, blue: u8, alpha: u8)
        ensures
            final(self).color() == (InternalColor { red, green, blue, alpha }),
            final(self).color_dirty(),
            Self::same_but_color(*final(self), *old(self)),
    {
        self.background_color.set(InternalColor { red, green, blue, alpha });
    }

    /// Merge one input fact into this frame's set; a duplicate is a no-op.
    pub fn add_event(&mut self, event: Event)
        ensures
            final(self).events() == old(self).events().insert(event),
            Self::same_but_events(*final(self), *old(self)),
    {
        self.input_events.insert(event);
    }

    /// Pure lookup: whether this key's press fact is in the frame's set.
    pub fn is_key_pressed(&self, key: KeyCode) -> (r: bool)
        ensures
            r == self.events().contains(Event::KeyPress(key)),
    {
        self.input_events.contains(&Event::KeyPress(key))
    }

    /// Return and clear the accumulated output commands — a destructive,
    /// single-consumer read for the driver.
    pub fn pop_all_commands(&mut self) -> (r: Vec<Command>)
        ensures
            r@ == old(self).commands(),
            final(self).commands() == Seq::<Command>::empty(),
            Self::same_but_commands(*final(self), *old(self)),
    {
        let mut output: Vec<Command> = Vec::new();
        core::mem::swap(&mut self.output_commands, &mut output);
        output
    }

    /// Fold one drawable's record outcome into the sticky exit status: an
    /// error overwrites the field — the last recorded error wins — while
    /// success leaves it alone, so an error, once stored, is never
    /// cleared.
    pub fn record_draw_result(&mut self, r: Result<(), GlError>)
        ensures
            r matches Err(e) ==> final(self).exit_status() == Err::<(), GlError>(e),
            r is Ok ==> final(self).exit_status() == old(self).exit_status(),
            Self::same_but_exit_status(*final(self), *old(self)),
    {
        match r {
            Err(e) => {
                self.exit_status = Err(e);
            },
            Ok(()) => {},
        }
    }

    /// Run one drawable's record phase against the recording surface and
    /// fold its outcome into the sticky exit status.
    pub fn draw_game_object<C: GlDriver, D: Drawable<C>>(&mut self, object: &mut D, driver: &mut C)
        requires
            old(self).wf(),
            refs_below(old(self).renderer().registry@, u64::MAX - 1),
        ensures
            final(self).wf(),
            final(self).events() == old(self).events(),
            final(self).commands() == old(self).commands(),
            final(self).color() == old(self).color(),
            final(self).color_dirty() == old(self).color_dirty(),
            // the status only ever moves toward an error, never away:
            final(self).exit_status() == old(self).exit_status() || final(self).exit_status()
                is Err,
            old(self).exit_status() is Err ==> final(self).exit_status() is Err,
    {
        let r = object.draw(&mut self.renderer_context, driver);
        self.record_draw_result(r);
    }

    /// The viewport update for a resize to these pixel dimensions.
    /// Zero-sized dimensions are to be ignored by the caller before this.
    pub fn resize(&self, width: i32, height: i32) -> (r: GlCall)
        ensures
            r == (GlCall::Viewport { width, height }),
    {
        GlCall::Viewport { width, height }
    }

    /// The flush point. If the sticky status already holds an error, that
    /// exact error returns and nothing else happens: no operation is
    /// emitted, the queue is not drained, no state moves. Otherwise the
    /// emitted sequence applies the background color once if it changed,
    /// always clears the buffers, and then holds the recorded operations
    /// in last-in first-out order; the queue is left empty and the color
    /// clean. The driver executes the returned operations and presents
    /// the frame.
    pub fn draw(&mut self) -> (r: Result<Vec<GlCall>, GlError>)
        ensures
            old(self).exit_status() matches Err(e) ==> r == Err::<Vec<GlCall>, GlError>(e)
                && *final(self) == *old(self),
            old(self).exit_status() is Ok ==> ({
                &&& r matches Ok(ops) && ops@ == flush_output(
                    old(self).color(),
                    old(self).color_dirty(),
                    old(self).queue(),
                )
                &&& final(self).queue() == Seq::<GlCall>::empty()
                &&& !final(self).color_dirty()
                &&& final(self).color() == old(self).color()
                &&& final(self).events() == old(self).events()
                &&& final(self).commands() == old(self).commands()
                &&& final(self).exit_status() == old(self).exit_status()
                &&& final(self).renderer().registry == old(self).renderer().registry
            }),
    {
        match &self.exit_status {
            Err(e) => {
                return Err(e.clone());
            },
            Ok(()) => {},
        }
        let mut ops: Vec<GlCall> = Vec::new();
        match self.background_color.execute_on_change() {
            Some(color) => {
                ops.push(
                    GlCall::ClearColor {
                        red: color.red,
                        green: color.green,
                        blue: color.blue,
                        alpha: color.alpha,
                    },
                );
            },
            None => {},
        }
        ops.push(GlCall::Clear);
        let mut recorded = self.renderer_context.command_queue.drain();
        ops.append(&mut recorded);
        proof {
            assert(ops@ =~= flush_output(
                old(self).color(),
                old(self).color_dirty(),
                old(self).queue(),
            ));
        }
        Ok(ops)
    }
}

/// LIFO law at the flush point, position by position: after the fixed
/// prefix, the operation at offset `i` of what a flush emits is the one
/// recorded at position `len - 1 - i` — for a recording `[A, B, C]` the
/// emitted tail is `[C, B, A]`.
pub open spec fn lifo_at(ops: Seq<GlCall>, recorded: Seq<GlCall>, base: int, i: int) -> bool {
    ops[base + i] == recorded[recorded.len() - 1 - i]
}

/// The flush executes recorded operations in reverse recording order.
pub proof fn lemma_flush_is_lifo(color: InternalColor, dirty: bool, recorded: Seq<GlCall>)
    ensures
        flush_output(color, dirty, recorded).len() == flush_prefix(color, dirty).len()
            + recorded.len(),
        forall|i: int|
            0 <= i < recorded.len() ==> #[trigger] lifo_at(
                flush_output(color, dirty, recorded),
                recorded,
                flush_prefix(color, dirty).len() as int,
                i,
            ),
{
    assert forall|i: int| 0 <= i < recorded.len() implies lifo_at(
        flush_output(color, dirty, recorded),
        recorded,
        flush_prefix(color, dirty).len() as int,
        i,
    ) by {
        assert(flush_output(color, dirty, recorded)[flush_prefix(color, dirty).len() + i]
            == recorded.reverse()[i]);
    }
}

/// Change-coalescing for the background color: however many times the
/// color is set between two flushes, the cell afterwards holds the latest
/// value, dirty (that is `set`'s contract, composed), and the next flush
/// emits exactly one clear-color operation, carrying that latest value —
/// also when consecutive sets carry the same value. A flush with the
/// color unchanged since the previous flush emits none. Stated for a
/// recording without clear-color operations of its own, which is every
/// recording made of draw work.
pub proof fn lemma_background_color_coalescing(latest: InternalColor, recorded: Seq<GlCall>)
    requires
        forall|i: int| 0 <= i < recorded.len() ==> !((#[trigger] recorded[i]) is ClearColor),
    ensures
        ({
            let ops = flush_output(latest, true, recorded);
            &&& ops.len() == 2 + recorded.len()
            &&& ops[0] == clear_color_call(latest)
            &&& forall|i: int| 1 <= i < ops.len() ==> !((#[trigger] ops[i]) is ClearColor)
        }),
        ({
            let ops = flush_output(latest, false, recorded);
            forall|i: int| 0 <= i < ops.len() ==> !((#[trigger] ops[i]) is ClearColor)
        }),
{
    let ops_dirty = flush_output(latest, true, recorded);
    assert forall|i: int| 1 <= i < ops_dirty.len() implies !((#[trigger] ops_dirty[i])
        is ClearColor) by {
        if i >= 2 {
            assert(ops_dirty[i] == recorded.reverse()[i - 2]);
            assert(recorded.reverse()[i - 2] == recorded[recorded.len() - 1 - (i - 2)]);
        }
    }
    let ops_clean = flush_output(latest, false, recorded);
    assert forall|i: int| 0 <= i < ops_clean.len() implies !((#[trigger] ops_clean[i])
        is ClearColor) by {
        if i >= 1 {
            assert(ops_clean[i] == recorded.reverse()[i - 1]);
            assert(recorded.reverse()[i - 1] == recorded[recorded.len() - 1 - (i - 1)]);
        }
    }
}

} // verus!
