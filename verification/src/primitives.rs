//! Drawing primitives: viewport, clearing, draw calls and texture binding.

use vstd::prelude::*;
use crate::commands::Command;

verus! {

/// How a run of vertices is assembled into triangles.
#[derive(Clone, Copy, Debug, PartialEq, Eq)]
pub enum DrawMode {
    Triangles,
    TriangleStrip,
}

/// The graphics API's code for a draw mode.
pub open spec fn draw_mode_code(mode: DrawMode) -> u32 {
    match mode {
        DrawMode::Triangles => 0x0004,
        DrawMode::TriangleStrip => 0x0005,
    }
}

/// The code of `mode` in the graphics API.
pub fn map_draw_mode(mode: &DrawMode) -> (code: u32)
    ensures
        code == draw_mode_code(*mode),
{
    match mode {
        DrawMode::Triangles => 0x0004,
        DrawMode::TriangleStrip => 0x0005,
    }
}

/// The stateless drawing operations.
pub struct Primitives {}

impl Primitives {
    pub fn viewport(queue: &mut Vec<Command>, x: u32, y: u32, width: u32, height: u32)
        ensures
            final(queue)@ == old(queue)@.push(Command::Viewport { x, y, width, height }),
    {
        queue.push(Command::Viewport { x, y, width, height });
    }

    pub fn clear(queue: &mut Vec<Command>)
        ensures
            final(queue)@ == old(queue)@.push(Command::Clear),
    {
        queue.push(Command::Clear);
    }

    pub fn draw_arrays(queue: &mut Vec<Command>, mode: DrawMode, ofs: usize, count: usize)
        ensures
            final(queue)@ == old(queue)@.push(Command::DrawArrays { mode, first: ofs, count }),
    {
        queue.push(Command::DrawArrays { mode, first: ofs, count });
    }

    pub fn draw_elements(queue: &mut Vec<Command>, mode: DrawMode, count: usize)
        ensures
            final(queue)@ == old(queue)@.push(Command::DrawElements { mode, count }),
    {
        queue.push(Command::DrawElements { mode, count });
    }

    pub fn draw_elements_instanced(
        queue: &mut Vec<Command>,
        mode: DrawMode,
        count: usize,
        num_instances: usize,
    )
        ensures
            final(queue)@ == old(queue)@.push(
                Command::DrawElementsInstanced { mode, count, instances: num_instances },
            ),
    {
        queue.push(Command::DrawElementsInstanced { mode, count, instances: num_instances });
    }

    pub fn bind_texture(queue: &mut Vec<Command>, id: u32, bind_location: u32)
        ensures
            final(queue)@ == old(queue)@.push(Command::BindTexture { id, unit: bind_location }),
    {
        queue.push(Command::BindTexture { id, unit: bind_location });
    }

    pub fn unbind_texture(queue: &mut Vec<Command>, _id: u32)
        ensures
            final(queue)@ == old(queue)@.push(Command::UnbindTexture),
    {
        queue.push(Command::UnbindTexture);
    }
}

} // verus!
