//! The graphics calls the library asks for.
//!
//! Nothing in this library talks to graphics hardware. Every operation that
//! needs a call made appends a [`Command`] to a queue handed in by the
//! caller, who carries the commands out in order. What a method appends is
//! part of its contract, so binding discipline and upload policy can be read
//! off, counted and proved.

use vstd::prelude::*;
use crate::buffers::{BufferType, BufferUsage};
use crate::primitives::DrawMode;

verus! {

/// One call into the graphics API.
#[derive(Clone, Copy, Debug, PartialEq, Eq)]
pub enum Command {
    /// Bind buffer `id` at `target`; `id` 0 unbinds.
    BindBuffer { target: BufferType, id: u32 },
    /// Attach buffer `id` to the indexed binding point of `target`.
    BindBufferBase { target: BufferType, binding_point: u32, id: u32 },
    /// Allocate `size` bytes for the buffer bound at `target` and fill them.
    BufferData { target: BufferType, size: usize, usage: BufferUsage },
    /// Overwrite `size` bytes from `offset` on, without allocating.
    BufferSubData { target: BufferType, offset: usize, size: usize },
    /// Release buffer `id`.
    DeleteBuffer { id: u32 },
    /// Bind vertex array `id`; `id` 0 unbinds.
    BindVertexArray { id: u32 },
    /// Release vertex array `id`.
    DeleteVertexArray { id: u32 },
    /// Switch on the vertex attribute at `index`.
    EnableVertexAttribArray { index: u32 },
    /// Declare attribute `index` as `components` scalars found `offset` bytes
    /// into each vertex, vertices lying `stride` bytes apart.
    VertexAttribPointer { index: u32, components: u32, stride: usize, offset: usize },
    /// Make texture unit `unit` active and bind texture `id` to it.
    BindTexture { id: u32, unit: u32 },
    /// Unbind the texture of the active unit.
    UnbindTexture,
    /// Release texture `id`.
    DeleteTexture { id: u32 },
    /// Release shader `id`.
    DeleteShader { id: u32 },
    /// Make program `id` current.
    UseProgram { id: u32 },
    /// Release program `id`.
    DeleteProgram { id: u32 },
    /// Attach shader `shader` to program `program`.
    AttachShader { program: u32, shader: u32 },
    /// Link program `id`.
    LinkProgram { id: u32 },
    /// Detach shader `shader` from program `program`.
    DetachShader { program: u32, shader: u32 },
    /// Draw `count` vertices from `first` on.
    DrawArrays { mode: DrawMode, first: usize, count: usize },
    /// Draw `count` indices of the bound index buffer.
    DrawElements { mode: DrawMode, count: usize },
    /// Draw `count` indices, `instances` times.
    DrawElementsInstanced { mode: DrawMode, count: usize, instances: usize },
    /// Set the viewport rectangle.
    Viewport { x: u32, y: u32, width: u32, height: u32 },
    /// Clear the color and depth buffers.
    Clear,
    /// Set the blend function to the two factor codes.
    BlendFunc { source: u32, destination: u32 },
    /// Set the uniform at `location` to `value`.
    Uniform1i { location: i32, value: i32 },
    /// Set the uniform at `location` to the pair `(first, second)`.
    Uniform2i { location: i32, first: i32, second: i32 },
}

impl Command {
    /// Whether the command allocates storage for `target`.
    pub open spec fn allocates(self, target: BufferType) -> bool {
        self is BufferData && self->BufferData_target == target
    }

    /// Whether the command is a draw call.
    pub open spec fn is_draw(self) -> bool {
        self is DrawArrays || self is DrawElements || self is DrawElementsInstanced
    }
}

/// How many commands of `commands` satisfy `pred`.
pub open spec fn count(commands: Seq<Command>, pred: spec_fn(Command) -> bool) -> nat
    decreases commands.len(),
{
    if commands.len() == 0 {
        0
    } else {
        count(commands.drop_last(), pred) + (if pred(commands.last()) {
            1nat
        } else {
            0nat
        })
    }
}

/// How many commands of `commands` allocate storage for `target`.
pub open spec fn allocations(commands: Seq<Command>, target: BufferType) -> nat {
    count(commands, |c: Command| c.allocates(target))
}

/// How many commands of `commands` update buffer storage in place.
pub open spec fn updates_in_place(commands: Seq<Command>) -> nat {
    count(commands, |c: Command| c is BufferSubData)
}

/// How many commands of `commands` are draw calls.
pub open spec fn draw_calls(commands: Seq<Command>) -> nat {
    count(commands, |c: Command| c.is_draw())
}

/// Counting over a sequence with one more command.
pub proof fn lemma_count_push(commands: Seq<Command>, last: Command, pred: spec_fn(Command) -> bool)
    ensures
        count(commands.push(last), pred) == count(commands, pred) + (if pred(last) {
            1nat
        } else {
            0nat
        }),
{
    assert(commands.push(last).drop_last() =~= commands);
}

/// Counting over two sequences joined.
pub proof fn lemma_count_add(
    first: Seq<Command>,
    second: Seq<Command>,
    pred: spec_fn(Command) -> bool,
)
    ensures
        count(first + second, pred) == count(first, pred) + count(second, pred),
    decreases second.len(),
{
    if second.len() == 0 {
        assert(first + second =~= first);
    } else {
        assert((first + second).drop_last() =~= first + second.drop_last());
        lemma_count_add(first, second.drop_last(), pred);
    }
}

/// A sequence in which no command satisfies `pred` counts none.
pub proof fn lemma_count_none(commands: Seq<Command>, pred: spec_fn(Command) -> bool)
    requires
        forall|i: int| 0 <= i < commands.len() ==> !pred(#[trigger] commands[i]),
    ensures
        count(commands, pred) == 0,
    decreases commands.len(),
{
    if commands.len() > 0 {
        lemma_count_none(commands.drop_last(), pred);
    }
}

} // verus!
