//! Buffer objects: one allocation of graphics memory each, with the rules
//! of its binding and upload lifecycle.

use vstd::prelude::*;
use crate::commands::{allocations, lemma_count_push, updates_in_place, Command};
use crate::types::{Quad, Scalar, Vertex, QUAD_STRIDE, SCALAR_SIZE, VERTEX_STRIDE};

verus! {

/// The logical kind of a buffer, which fixes the target it binds at.
#[derive(Clone, Copy, Debug, PartialEq, Eq)]
pub enum BufferType {
    ArrayBuffer,
    IndexBuffer,
    UniformBuffer,
    ShaderStorageBuffer,
}

/// How often a buffer's contents are written and what reads them.
#[derive(Clone, Copy, Debug, PartialEq, Eq)]
pub enum BufferUsage {
    StreamDraw,
    StreamRead,
    StreamCopy,
    StaticDraw,
    StaticRead,
    StaticCopy,
    DynamicDraw,
    DynamicRead,
    DynamicCopy,
}

/// The graphics API's code for a usage hint.
pub open spec fn usage_code(usage: BufferUsage) -> u32 {
    match usage {
        BufferUsage::StreamDraw => 0x88E0,
        BufferUsage::StreamRead => 0x88E1,
        BufferUsage::StreamCopy => 0x88E2,
        BufferUsage::StaticDraw => 0x88E4,
        BufferUsage::StaticRead => 0x88E5,
        BufferUsage::StaticCopy => 0x88E6,
        BufferUsage::DynamicDraw => 0x88E8,
        BufferUsage::DynamicRead => 0x88E9,
        BufferUsage::DynamicCopy => 0x88EA,
    }
}

/// The graphics API's code for a buffer target.
pub open spec fn type_code(buffer_type: BufferType) -> u32 {
    match buffer_type {
        BufferType::ArrayBuffer => 0x8892,
        BufferType::IndexBuffer => 0x8893,
        BufferType::UniformBuffer => 0x8A11,
        BufferType::ShaderStorageBuffer => 0x90D2,
    }
}

/// The code of `usage` in the graphics API. Different hints have different codes.
pub fn map_usage(usage: &BufferUsage) -> (code: u32)
    ensures
        code == usage_code(*usage),
        forall|other: BufferUsage| usage_code(other) == code ==> other == *usage,
{
    match usage {
        BufferUsage::StreamDraw => 0x88E0,
        BufferUsage::StreamRead => 0x88E1,
        BufferUsage::StreamCopy => 0x88E2,
        BufferUsage::StaticDraw => 0x88E4,
        BufferUsage::StaticRead => 0x88E5,
        BufferUsage::StaticCopy => 0x88E6,
        BufferUsage::DynamicDraw => 0x88E8,
        BufferUsage::DynamicRead => 0x88E9,
        BufferUsage::DynamicCopy => 0x88EA,
    }
}

/// The code of `buffer_type` in the graphics API. Different targets have different codes.
pub fn map_type(buffer_type: &BufferType) -> (code: u32)
    ensures
        code == type_code(*buffer_type),
        forall|other: BufferType| type_code(other) == code ==> other == *buffer_type,
{
    match buffer_type {
        BufferType::ArrayBuffer => 0x8892,
        BufferType::IndexBuffer => 0x8893,
        BufferType::UniformBuffer => 0x8A11,
        BufferType::ShaderStorageBuffer => 0x90D2,
    }
}

/// The commands of one full upload: bind, allocate and fill, unbind.
pub open spec fn full_upload(
    id: u32,
    target: BufferType,
    usage: BufferUsage,
    size: usize,
) -> Seq<Command> {
    seq![
        Command::BindBuffer { target, id },
        Command::BufferData { target, size, usage },
        Command::BindBuffer { target, id: 0 },
    ]
}

/// A vertex or index buffer: every upload allocates anew.
#[derive(Debug)]
pub struct BufferObject {
    id: u32,
    buffer_type: BufferType,
    buffer_usage: BufferUsage,
}

impl BufferObject {
    /// The native handle; 0 once released.
    pub closed spec fn handle(&self) -> u32 {
        self.id
    }

    pub closed spec fn kind(&self) -> BufferType {
        self.buffer_type
    }

    pub closed spec fn usage(&self) -> BufferUsage {
        self.buffer_usage
    }

    /// Wraps the freshly generated native handle `id`. No storage is asked
    /// for. The handle 0, which the graphics API gives to no buffer, is
    /// reported as a failed allocation.
    pub fn new(id: u32, buffer_type: BufferType, buffer_usage: BufferUsage) -> (result: Result<
        BufferObject,
        String,
    >)
        ensures
            result is Ok <==> id != 0,
            result is Ok ==> result->Ok_0.handle() == id && result->Ok_0.kind() == buffer_type
                && result->Ok_0.usage() == buffer_usage,
            result is Err ==> result->Err_0@ == "failed to allocate buffer"@,
    {
        if id == 0 {
            return Err("failed to allocate buffer".to_string());
        }
        Ok(BufferObject { id, buffer_type, buffer_usage })
    }

    pub fn id(&self) -> (id: u32)
        ensures
            id == self.handle(),
    {
        self.id
    }

    pub fn bind(&self, queue: &mut Vec<Command>)
        ensures
            final(queue)@ == old(queue)@.push(
                Command::BindBuffer { target: self.kind(), id: self.handle() },
            ),
    {
        queue.push(Command::BindBuffer { target: self.buffer_type, id: self.id });
    }

    pub fn unbind(&self, queue: &mut Vec<Command>)
        ensures
            final(queue)@ == old(queue)@.push(Command::BindBuffer { target: self.kind(), id: 0 }),
    {
        queue.push(Command::BindBuffer { target: self.buffer_type, id: 0 });
    }

    /// Releases the native handle; a no-op on a buffer already released.
    pub fn free(&mut self, queue: &mut Vec<Command>)
        ensures
            final(self).handle() == 0,
            final(self).kind() == old(self).kind(),
            final(self).usage() == old(self).usage(),
            old(self).handle() != 0 ==> final(queue)@ == old(queue)@.push(
                Command::DeleteBuffer { id: old(self).handle() },
            ),
            old(self).handle() == 0 ==> final(queue)@ == old(queue)@,
    {
        if self.id != 0 {
            queue.push(Command::DeleteBuffer { id: self.id });
            self.id = 0;
        }
    }

    /// Uploads the first `count` vertices of `data`.
    pub fn copy_vertices_to_buffer<S: Scalar>(
        &mut self,
        queue: &mut Vec<Command>,
        data: &Vec<Vertex<S>>,
        count: usize,
    )
        requires
            count <= data@.len(),
            count * VERTEX_STRIDE <= usize::MAX,
        ensures
            *final(self) == *old(self),
            final(queue)@ == old(queue)@ + full_upload(
                old(self).handle(),
                old(self).kind(),
                old(self).usage(),
                (count * VERTEX_STRIDE) as usize,
            ),
    {
        self.copy_to_buffer(queue, count * VERTEX_STRIDE);
    }

    /// Uploads the first `count` quads of `data`.
    pub fn copy_quads_to_buffer<S: Scalar>(
        &mut self,
        queue: &mut Vec<Command>,
        data: &Vec<Quad<S>>,
        count: usize,
    )
        requires
            count <= data@.len(),
            count * QUAD_STRIDE <= usize::MAX,
        ensures
            *final(self) == *old(self),
            final(queue)@ == old(queue)@ + full_upload(
                old(self).handle(),
                old(self).kind(),
                old(self).usage(),
                (count * QUAD_STRIDE) as usize,
            ),
    {
        self.copy_to_buffer(queue, count * QUAD_STRIDE);
    }

    /// Uploads the first `count` indices of `data`.
    pub fn copy_u32_to_buffer(&self, queue: &mut Vec<Command>, data: &Vec<u32>, count: usize)
        requires
            count <= data@.len(),
            count * SCALAR_SIZE <= usize::MAX,
        ensures
            final(queue)@ == old(queue)@ + full_upload(
                self.handle(),
                self.kind(),
                self.usage(),
                (count * SCALAR_SIZE) as usize,
            ),
    {
        let size: usize = count * SCALAR_SIZE;
        self.bind(queue);
        queue.push(
            Command::BufferData { target: self.buffer_type, size, usage: self.buffer_usage },
        );
        self.unbind(queue);
        assert(final(queue)@ =~= old(queue)@ + full_upload(
            self.handle(),
            self.kind(),
            self.usage(),
            size,
        ));
    }

    /// Uploads `data_size` bytes: always a full allocation with the
    /// configured usage hint, whatever the size of the upload before.
    pub fn copy_to_buffer(&mut self, queue: &mut Vec<Command>, data_size: usize)
        ensures
            *final(self) == *old(self),
            final(queue)@ == old(queue)@ + full_upload(
                old(self).handle(),
                old(self).kind(),
                old(self).usage(),
                data_size,
            ),
    {
        self.bind(queue);
        queue.push(
            Command::BufferData {
                target: self.buffer_type,
                size: data_size,
                usage: self.buffer_usage,
            },
        );
        self.unbind(queue);
        assert(final(queue)@ =~= old(queue)@ + full_upload(
            old(self).handle(),
            old(self).kind(),
            old(self).usage(),
            data_size,
        ));
    }
}


/// The commands by which a storage buffer binds itself: before its first upload
/// it is attached to its binding point, afterwards it is bound plainly.
pub open spec fn storage_buffer_bind(id: u32, binding_point: u32, initialized: bool) -> Seq<Command> {
    if !initialized {
        seq![
            Command::BindBuffer { target: BufferType::ShaderStorageBuffer, id },
            Command::BindBufferBase { target: BufferType::ShaderStorageBuffer, binding_point, id },
        ]
    } else {
        seq![Command::BindBuffer { target: BufferType::ShaderStorageBuffer, id }]
    }
}

/// The commands of one upload to a storage buffer: a full allocation the first
/// time, an update in place from offset 0 every time after.
pub open spec fn storage_buffer_upload(
    id: u32,
    binding_point: u32,
    usage: BufferUsage,
    initialized: bool,
    size: usize,
) -> Seq<Command> {
    storage_buffer_bind(id, binding_point, initialized).push(
        if !initialized {
            Command::BufferData { target: BufferType::ShaderStorageBuffer, size, usage }
        } else {
            Command::BufferSubData { target: BufferType::ShaderStorageBuffer, offset: 0, size }
        },
    ).push(Command::BindBuffer { target: BufferType::ShaderStorageBuffer, id: 0 })
}

/// A storage buffer at a fixed binding point: allocated once, then updated in place.
#[derive(Debug)]
pub struct ShaderStorageBufferObject {
    id: u32,
    binding_point: u32,
    buffer_usage: BufferUsage,
    initialized: bool,
    size: usize,
}

impl ShaderStorageBufferObject {
    /// The native handle; 0 once released.
    pub closed spec fn handle(&self) -> u32 {
        self.id
    }

    pub closed spec fn slot(&self) -> u32 {
        self.binding_point
    }

    pub closed spec fn usage(&self) -> BufferUsage {
        self.buffer_usage
    }

    /// Whether storage has been allocated.
    pub closed spec fn initialized(&self) -> bool {
        self.initialized
    }

    /// The size in bytes fixed by the first upload; 0 before it.
    pub closed spec fn size(&self) -> usize {
        self.size
    }

    /// Wraps the freshly generated native handle `id` for use at
    /// `binding_point`. No storage is asked for. The handle 0 is reported
    /// as a failed allocation.
    pub fn new(id: u32, binding_point: u32, buffer_usage: BufferUsage) -> (result: Result<
        ShaderStorageBufferObject,
        String,
    >)
        ensures
            result is Ok <==> id != 0,
            result is Ok ==> {
                let buffer = result->Ok_0;
                &&& buffer.handle() == id
                &&& buffer.slot() == binding_point
                &&& buffer.usage() == buffer_usage
                &&& !buffer.initialized()
                &&& buffer.size() == 0
            },
            result is Err ==> result->Err_0@ == "failed to allocate buffer"@,
    {
        if id == 0 {
            return Err("failed to allocate buffer".to_string());
        }
        Ok(ShaderStorageBufferObject { id, binding_point, buffer_usage, initialized: false, size: 0 })
    }

    pub fn id(&self) -> (id: u32)
        ensures
            id == self.handle(),
    {
        self.id
    }

    pub fn is_initialized(&self) -> (initialized: bool)
        ensures
            initialized == self.initialized(),
    {
        self.initialized
    }

    /// The size in bytes fixed by the first upload; 0 before it.
    pub fn data_size(&self) -> (size: usize)
        ensures
            size == self.size(),
    {
        self.size
    }

    pub fn bind(&self, queue: &mut Vec<Command>)
        ensures
            final(queue)@ == old(queue)@ + storage_buffer_bind(
                self.handle(),
                self.slot(),
                self.initialized(),
            ),
    {
        if !self.initialized {
            queue.push(Command::BindBuffer { target: BufferType::ShaderStorageBuffer, id: self.id });
            queue.push(
                Command::BindBufferBase {
                    target: BufferType::ShaderStorageBuffer,
                    binding_point: self.binding_point,
                    id: self.id,
                },
            );
        } else {
            queue.push(Command::BindBuffer { target: BufferType::ShaderStorageBuffer, id: self.id });
        }
        assert(final(queue)@ =~= old(queue)@ + storage_buffer_bind(
            self.handle(),
            self.slot(),
            self.initialized(),
        ));
    }

    pub fn unbind(&self, queue: &mut Vec<Command>)
        ensures
            final(queue)@ == old(queue)@.push(
                Command::BindBuffer { target: BufferType::ShaderStorageBuffer, id: 0 },
            ),
    {
        queue.push(Command::BindBuffer { target: BufferType::ShaderStorageBuffer, id: 0 });
    }

    /// Uploads `data_size` bytes. The first upload allocates and fixes the
    /// size; every later one must be of that size and updates in place.
    pub fn copy_to_buffer(&mut self, queue: &mut Vec<Command>, data_size: usize)
        requires
            old(self).initialized() ==> data_size == old(self).size(),
        ensures
            final(self).initialized(),
            final(self).size() == data_size,
            final(self).handle() == old(self).handle(),
            final(self).slot() == old(self).slot(),
            final(self).usage() == old(self).usage(),
            final(queue)@ == old(queue)@ + storage_buffer_upload(
                old(self).handle(),
                old(self).slot(),
                old(self).usage(),
                old(self).initialized(),
                data_size,
            ),
    {
        self.bind(queue);
        if !self.initialized {
            queue.push(
                Command::BufferData {
                    target: BufferType::ShaderStorageBuffer,
                    size: data_size,
                    usage: self.buffer_usage,
                },
            );
            self.initialized = true;
            self.size = data_size;
        } else {
            queue.push(
                Command::BufferSubData {
                    target: BufferType::ShaderStorageBuffer,
                    offset: 0,
                    size: data_size,
                },
            );
        }
        self.unbind(queue);
        assert(final(queue)@ =~= old(queue)@ + storage_buffer_upload(
            old(self).handle(),
            old(self).slot(),
            old(self).usage(),
            old(self).initialized(),
            data_size,
        ));
    }

    /// Releases the native handle; a no-op on a buffer already released.
    pub fn free(&mut self, queue: &mut Vec<Command>)
        ensures
            final(self).handle() == 0,
            final(self).slot() == old(self).slot(),
            final(self).usage() == old(self).usage(),
            final(self).initialized() == old(self).initialized(),
            final(self).size() == old(self).size(),
            old(self).handle() != 0 ==> final(queue)@ == old(queue)@.push(
                Command::DeleteBuffer { id: old(self).handle() },
            ),
            old(self).handle() == 0 ==> final(queue)@ == old(queue)@,
    {
        if self.id != 0 {
            queue.push(Command::DeleteBuffer { id: self.id });
            self.id = 0;
        }
    }
}

/// The commands by which a uniform buffer binds itself: before its first upload
/// it is attached to its binding point, afterwards it is bound plainly.
pub open spec fn uniform_buffer_bind(id: u32, binding_point: u32, initialized: bool) -> Seq<Command> {
    if !initialized {
        seq![Command::BindBufferBase { target: BufferType::UniformBuffer, binding_point, id }]
    } else {
        seq![Command::BindBuffer { target: BufferType::UniformBuffer, id }]
    }
}

/// The commands of one upload to a uniform buffer: a full allocation the first
/// time, an update in place from offset 0 every time after.
pub open spec fn uniform_buffer_upload(
    id: u32,
    binding_point: u32,
    usage: BufferUsage,
    initialized: bool,
    size: usize,
) -> Seq<Command> {
    uniform_buffer_bind(id, binding_point, initialized).push(
        if !initialized {
            Command::BufferData { target: BufferType::UniformBuffer, size, usage }
        } else {
            Command::BufferSubData { target: BufferType::UniformBuffer, offset: 0, size }
        },
    ).push(Command::BindBuffer { target: BufferType::UniformBuffer, id: 0 })
}

/// A uniform buffer at a fixed binding point: allocated once, then updated in place.
#[derive(Debug)]
pub struct UniformBufferObject {
    id: u32,
    binding_point: u32,
    buffer_usage: BufferUsage,
    initialized: bool,
    size: usize,
}

impl UniformBufferObject {
    /// The native handle; 0 once released.
    pub closed spec fn handle(&self) -> u32 {
        self.id
    }

    pub closed spec fn slot(&self) -> u32 {
        self.binding_point
    }

    pub closed spec fn usage(&self) -> BufferUsage {
        self.buffer_usage
    }

    /// Whether storage has been allocated.
    pub closed spec fn initialized(&self) -> bool {
        self.initialized
    }

    /// The size in bytes fixed by the first upload; 0 before it.
    pub closed spec fn size(&self) -> usize {
        self.size
    }

    /// Wraps the freshly generated native handle `id` for use at
    /// `binding_point`. No storage is asked for. The handle 0 is reported
    /// as a failed allocation.
    pub fn new(id: u32, binding_point: u32, buffer_usage: BufferUsage) -> (result: Result<
        UniformBufferObject,
        String,
    >)
        ensures
            result is Ok <==> id != 0,
            result is Ok ==> {
                let buffer = result->Ok_0;
                &&& buffer.handle() == id
                &&& buffer.slot() == binding_point
                &&& buffer.usage() == buffer_usage
                &&& !buffer.initialized()
                &&& buffer.size() == 0
            },
            result is Err ==> result->Err_0@ == "failed to allocate buffer"@,
    {
        if id == 0 {
            return Err("failed to allocate buffer".to_string());
        }
        Ok(UniformBufferObject { id, binding_point, buffer_usage, initialized: false, size: 0 })
    }

    pub fn id(&self) -> (id: u32)
        ensures
            id == self.handle(),
    {
        self.id
    }

    pub fn is_initialized(&self) -> (initialized: bool)
        ensures
            initialized == self.initialized(),
    {
        self.initialized
    }

    /// The size in bytes fixed by the first upload; 0 before it.
    pub fn data_size(&self) -> (size: usize)
        ensures
            size == self.size(),
    {
        self.size
    }

    pub fn bind(&self, queue: &mut Vec<Command>)
        ensures
            final(queue)@ == old(queue)@ + uniform_buffer_bind(
                self.handle(),
                self.slot(),
                self.initialized(),
            ),
    {
        if !self.initialized {
            queue.push(
                Command::BindBufferBase {
                    target: BufferType::UniformBuffer,
                    binding_point: self.binding_point,
                    id: self.id,
                },
            );
        } else {
            queue.push(Command::BindBuffer { target: BufferType::UniformBuffer, id: self.id });
        }
        assert(final(queue)@ =~= old(queue)@ + uniform_buffer_bind(
            self.handle(),
            self.slot(),
            self.initialized(),
        ));
    }

    pub fn unbind(&self, queue: &mut Vec<Command>)
        ensures
            final(queue)@ == old(queue)@.push(
                Command::BindBuffer { target: BufferType::UniformBuffer, id: 0 },
            ),
    {
        queue.push(Command::BindBuffer { target: BufferType::UniformBuffer, id: 0 });
    }

    /// Uploads `data_size` bytes. The first upload allocates and fixes the
    /// size; every later one must be of that size and updates in place.
    pub fn copy_to_buffer(&mut self, queue: &mut Vec<Command>, data_size: usize)
        requires
            old(self).initialized() ==> data_size == old(self).size(),
        ensures
            final(self).initialized(),
            final(self).size() == data_size,
            final(self).handle() == old(self).handle(),
            final(self).slot() == old(self).slot(),
            final(self).usage() == old(self).usage(),
            final(queue)@ == old(queue)@ + uniform_buffer_upload(
                old(self).handle(),
                old(self).slot(),
                old(self).usage(),
                old(self).initialized(),
                data_size,
            ),
    {
        self.bind(queue);
        if !self.initialized {
            queue.push(
                Command::BufferData {
                    target: BufferType::UniformBuffer,
                    size: data_size,
                    usage: self.buffer_usage,
                },
            );
            self.initialized = true;
            self.size = data_size;
        } else {
            queue.push(
                Command::BufferSubData {
                    target: BufferType::UniformBuffer,
                    offset: 0,
                    size: data_size,
                },
            );
        }
        self.unbind(queue);
        assert(final(queue)@ =~= old(queue)@ + uniform_buffer_upload(
            old(self).handle(),
            old(self).slot(),
            old(self).usage(),
            old(self).initialized(),
            data_size,
        ));
    }

    /// Releases the native handle; a no-op on a buffer already released.
    pub fn free(&mut self, queue: &mut Vec<Command>)
        ensures
            final(self).handle() == 0,
            final(self).slot() == old(self).slot(),
            final(self).usage() == old(self).usage(),
            final(self).initialized() == old(self).initialized(),
            final(self).size() == old(self).size(),
            old(self).handle() != 0 ==> final(queue)@ == old(queue)@.push(
                Command::DeleteBuffer { id: old(self).handle() },
            ),
            old(self).handle() == 0 ==> final(queue)@ == old(queue)@,
    {
        if self.id != 0 {
            queue.push(Command::DeleteBuffer { id: self.id });
            self.id = 0;
        }
    }
}

/// The commands that declare the vertex layout from attribute `start_index`
/// on: three scalars of position at offset 0, four of color at offset 12,
/// two of texture coordinate at offset 28, all with the vertex stride.
pub open spec fn attrib_pointers(start_index: u32) -> Seq<Command> {
    let first = start_index;
    let second = (start_index + 1) as u32;
    let third = (start_index + 2) as u32;
    seq![
        Command::EnableVertexAttribArray { index: first },
        Command::VertexAttribPointer {
            index: first,
            components: 3,
            stride: VERTEX_STRIDE,
            offset: 0,
        },
        Command::VertexAttribPointer {
            index: second,
            components: 4,
            stride: VERTEX_STRIDE,
            offset: 12,
        },
        Command::EnableVertexAttribArray { index: second },
        Command::VertexAttribPointer {
            index: third,
            components: 2,
            stride: VERTEX_STRIDE,
            offset: 28,
        },
        Command::EnableVertexAttribArray { index: third },
    ]
}

/// Declares the vertex layout for the vertex array and buffer now bound.
pub fn declare_attrib_pointers(queue: &mut Vec<Command>, start_index: u32)
    requires
        start_index + 2 <= u32::MAX,
    ensures
        final(queue)@ == old(queue)@ + attrib_pointers(start_index),
{
    let mut index: u32 = start_index;
    let mut offset: usize = 0;
    queue.push(Command::EnableVertexAttribArray { index });
    queue.push(Command::VertexAttribPointer { index, components: 3, stride: VERTEX_STRIDE, offset });
    index += 1;
    offset += 3 * SCALAR_SIZE;
    queue.push(Command::VertexAttribPointer { index, components: 4, stride: VERTEX_STRIDE, offset });
    queue.push(Command::EnableVertexAttribArray { index });
    index += 1;
    offset += 4 * SCALAR_SIZE;
    queue.push(Command::VertexAttribPointer { index, components: 2, stride: VERTEX_STRIDE, offset });
    queue.push(Command::EnableVertexAttribArray { index });
    assert(final(queue)@ =~= old(queue)@ + attrib_pointers(start_index));
}

/// The commands that set up a vertex array over its vertex buffer.
pub open spec fn vertex_array_setup(id: u32, buffer_id: u32, start_index: u32) -> Seq<Command> {
    seq![
        Command::BindVertexArray { id },
        Command::BindBuffer { target: BufferType::ArrayBuffer, id: buffer_id },
    ] + attrib_pointers(start_index) + seq![
        Command::BindBuffer { target: BufferType::ArrayBuffer, id: 0 },
        Command::BindVertexArray { id: 0 },
    ]
}

/// A vertex buffer bound to the fixed vertex layout.
#[derive(Debug)]
pub struct VertexArray {
    id: u32,
    buffer_object: BufferObject,
}

impl VertexArray {
    /// The native handle of the vertex array; 0 once released.
    pub closed spec fn handle(&self) -> u32 {
        self.id
    }

    /// The vertex buffer the array owns.
    pub closed spec fn buffer(&self) -> BufferObject {
        self.buffer_object
    }

    /// Wraps the freshly generated handles of a vertex array and of its
    /// vertex buffer, and declares the vertex layout from attribute
    /// `start_index` on. A handle 0 is reported as a failed allocation, and
    /// nothing is asked of the graphics API then.
    pub fn new(
        queue: &mut Vec<Command>,
        id: u32,
        buffer_id: u32,
        usage: BufferUsage,
        start_index: u32,
    ) -> (result: Result<VertexArray, String>)
        requires
            start_index + 2 <= u32::MAX,
        ensures
            result is Ok <==> id != 0 && buffer_id != 0,
            result is Ok ==> {
                let array = result->Ok_0;
                &&& array.handle() == id
                &&& array.buffer().handle() == buffer_id
                &&& array.buffer().kind() == BufferType::ArrayBuffer
                &&& array.buffer().usage() == usage
                &&& final(queue)@ == old(queue)@ + vertex_array_setup(id, buffer_id, start_index)
            },
            result is Err ==> final(queue)@ == old(queue)@,
            buffer_id == 0 ==> result is Err && result->Err_0@ == "failed to allocate buffer"@,
            buffer_id != 0 && id == 0 ==> result is Err && result->Err_0@
                == "failed to allocate vertex array"@,
    {
        let buffer_object = match BufferObject::new(buffer_id, BufferType::ArrayBuffer, usage) {
            Ok(buffer_object) => buffer_object,
            Err(message) => {
                return Err(message);
            },
        };
        if id == 0 {
            return Err("failed to allocate vertex array".to_string());
        }
        let vertex_array = VertexArray { id, buffer_object };
        vertex_array.bind(queue);
        vertex_array.buffer_object.bind(queue);
        declare_attrib_pointers(queue, start_index);
        vertex_array.buffer_object.unbind(queue);
        vertex_array.unbind(queue);
        assert(final(queue)@ =~= old(queue)@ + vertex_array_setup(id, buffer_id, start_index));
        Ok(vertex_array)
    }

    /// Uploads the first `count` vertices of `data` to the vertex buffer.
    pub fn copy_vertices_to_buffer<S: Scalar>(
        &mut self,
        queue: &mut Vec<Command>,
        data: &Vec<Vertex<S>>,
        count: usize,
    )
        requires
            count <= data@.len(),
            count * VERTEX_STRIDE <= usize::MAX,
        ensures
            *final(self) == *old(self),
            final(queue)@ == old(queue)@ + full_upload(
                old(self).buffer().handle(),
                old(self).buffer().kind(),
                old(self).buffer().usage(),
                (count * VERTEX_STRIDE) as usize,
            ),
    {
        self.buffer_object.copy_vertices_to_buffer(queue, data, count);
    }

    /// Uploads the first `count` quads of `data` to the vertex buffer.
    pub fn copy_quads_to_buffer<S: Scalar>(
        &mut self,
        queue: &mut Vec<Command>,
        data: &Vec<Quad<S>>,
        count: usize,
    )
        requires
            count <= data@.len(),
            count * QUAD_STRIDE <= usize::MAX,
        ensures
            *final(self) == *old(self),
            final(queue)@ == old(queue)@ + full_upload(
                old(self).buffer().handle(),
                old(self).buffer().kind(),
                old(self).buffer().usage(),
                (count * QUAD_STRIDE) as usize,
            ),
    {
        self.buffer_object.copy_quads_to_buffer(queue, data, count);
    }

    pub fn bind(&self, queue: &mut Vec<Command>)
        ensures
            final(queue)@ == old(queue)@.push(Command::BindVertexArray { id: self.handle() }),
    {
        queue.push(Command::BindVertexArray { id: self.id });
    }

    pub fn unbind(&self, queue: &mut Vec<Command>)
        ensures
            final(queue)@ == old(queue)@.push(Command::BindVertexArray { id: 0 }),
    {
        queue.push(Command::BindVertexArray { id: 0 });
    }

    /// Releases the vertex array and its vertex buffer, each only if it
    /// is not released yet.
    pub fn free(&mut self, queue: &mut Vec<Command>)
        ensures
            final(self).handle() == 0,
            final(self).buffer().handle() == 0,
            final(self).buffer().kind() == old(self).buffer().kind(),
            final(self).buffer().usage() == old(self).buffer().usage(),
            final(queue)@ == old(queue)@ + (if old(self).handle() != 0 {
                seq![Command::DeleteVertexArray { id: old(self).handle() }]
            } else {
                seq![]
            }) + (if old(self).buffer().handle() != 0 {
                seq![Command::DeleteBuffer { id: old(self).buffer().handle() }]
            } else {
                seq![]
            }),
    {
        if self.id != 0 {
            queue.push(Command::DeleteVertexArray { id: self.id });
            self.id = 0;
        }
        self.buffer_object.free(queue);
        assert(final(queue)@ =~= old(queue)@ + (if old(self).handle() != 0 {
            seq![Command::DeleteVertexArray { id: old(self).handle() }]
        } else {
            seq![]
        }) + (if old(self).buffer().handle() != 0 {
            seq![Command::DeleteBuffer { id: old(self).buffer().handle() }]
        } else {
            seq![]
        }));
    }
}

/// A full upload allocates exactly once, for its own target, and updates
/// nothing in place.
pub proof fn lemma_full_upload_counts(
    id: u32,
    target: BufferType,
    usage: BufferUsage,
    size: usize,
    other: BufferType,
)
    ensures
        allocations(full_upload(id, target, usage, size), target) == 1,
        other != target ==> allocations(full_upload(id, target, usage, size), other) == 0,
        updates_in_place(full_upload(id, target, usage, size)) == 0,
{
    let bind = Command::BindBuffer { target, id };
    let data = Command::BufferData { target, size, usage };
    let unbind = Command::BindBuffer { target, id: 0 };
    let none = Seq::<Command>::empty();
    assert(full_upload(id, target, usage, size) =~= none.push(bind).push(data).push(unbind));
    let same = |c: Command| c.allocates(target);
    let different = |c: Command| c.allocates(other);
    let in_place = |c: Command| c is BufferSubData;
    lemma_count_push(none, bind, same);
    lemma_count_push(none.push(bind), data, same);
    lemma_count_push(none.push(bind).push(data), unbind, same);
    lemma_count_push(none, bind, different);
    lemma_count_push(none.push(bind), data, different);
    lemma_count_push(none.push(bind).push(data), unbind, different);
    lemma_count_push(none, bind, in_place);
    lemma_count_push(none.push(bind), data, in_place);
    lemma_count_push(none.push(bind).push(data), unbind, in_place);
}

/// A storage buffer allocates on its first upload and only then: the
/// first upload holds one allocation and no update in place, every later
/// one holds one update in place and no allocation for any target.
pub proof fn lemma_storage_buffer_allocates_once(
    id: u32,
    binding_point: u32,
    usage: BufferUsage,
    size: usize,
    target: BufferType,
)
    ensures
        allocations(
            storage_buffer_upload(id, binding_point, usage, false, size),
            BufferType::ShaderStorageBuffer,
        ) == 1,
        updates_in_place(storage_buffer_upload(id, binding_point, usage, false, size)) == 0,
        allocations(storage_buffer_upload(id, binding_point, usage, true, size), target) == 0,
        updates_in_place(storage_buffer_upload(id, binding_point, usage, true, size)) == 1,
{
    let kind = BufferType::ShaderStorageBuffer;
    let none = Seq::<Command>::empty();
    let bind = Command::BindBuffer { target: kind, id };
    let base = Command::BindBufferBase { target: kind, binding_point, id };
    let data = Command::BufferData { target: kind, size, usage };
    let sub = Command::BufferSubData { target: kind, offset: 0, size };
    let unbind = Command::BindBuffer { target: kind, id: 0 };
    let first = none.push(bind).push(base).push(data).push(unbind);
    let later = none.push(bind).push(sub).push(unbind);
    assert(storage_buffer_upload(id, binding_point, usage, false, size) =~= first);
    assert(storage_buffer_upload(id, binding_point, usage, true, size) =~= later);
    let own = |c: Command| c.allocates(BufferType::ShaderStorageBuffer);
    let any = |c: Command| c.allocates(target);
    let in_place = |c: Command| c is BufferSubData;
    lemma_count_push(none, bind, own);
    lemma_count_push(none.push(bind), base, own);
    lemma_count_push(none.push(bind).push(base), data, own);
    lemma_count_push(none.push(bind).push(base).push(data), unbind, own);
    lemma_count_push(none, bind, in_place);
    lemma_count_push(none.push(bind), base, in_place);
    lemma_count_push(none.push(bind).push(base), data, in_place);
    lemma_count_push(none.push(bind).push(base).push(data), unbind, in_place);
    lemma_count_push(none, bind, any);
    lemma_count_push(none.push(bind), sub, any);
    lemma_count_push(none.push(bind).push(sub), unbind, any);
    lemma_count_push(none.push(bind), sub, in_place);
    lemma_count_push(none.push(bind).push(sub), unbind, in_place);
}

/// A uniform buffer allocates on its first upload and only then: the
/// first upload holds one allocation and no update in place, every later
/// one holds one update in place and no allocation for any target.
pub proof fn lemma_uniform_buffer_allocates_once(
    id: u32,
    binding_point: u32,
    usage: BufferUsage,
    size: usize,
    target: BufferType,
)
    ensures
        allocations(
            uniform_buffer_upload(id, binding_point, usage, false, size),
            BufferType::UniformBuffer,
        ) == 1,
        updates_in_place(uniform_buffer_upload(id, binding_point, usage, false, size)) == 0,
        allocations(uniform_buffer_upload(id, binding_point, usage, true, size), target) == 0,
        updates_in_place(uniform_buffer_upload(id, binding_point, usage, true, size)) == 1,
{
    let kind = BufferType::UniformBuffer;
    let none = Seq::<Command>::empty();
    let bind = Command::BindBuffer { target: kind, id };
    let base = Command::BindBufferBase { target: kind, binding_point, id };
    let data = Command::BufferData { target: kind, size, usage };
    let sub = Command::BufferSubData { target: kind, offset: 0, size };
    let unbind = Command::BindBuffer { target: kind, id: 0 };
    let first = none.push(base).push(data).push(unbind);
    let later = none.push(bind).push(sub).push(unbind);
    assert(uniform_buffer_upload(id, binding_point, usage, false, size) =~= first);
    assert(uniform_buffer_upload(id, binding_point, usage, true, size) =~= later);
    let own = |c: Command| c.allocates(BufferType::UniformBuffer);
    let any = |c: Command| c.allocates(target);
    let in_place = |c: Command| c is BufferSubData;
    lemma_count_push(none, base, own);
    lemma_count_push(none.push(base), data, own);
    lemma_count_push(none.push(base).push(data), unbind, own);
    lemma_count_push(none, base, in_place);
    lemma_count_push(none.push(base), data, in_place);
    lemma_count_push(none.push(base).push(data), unbind, in_place);
    lemma_count_push(none, bind, any);
    lemma_count_push(none.push(bind), sub, any);
    lemma_count_push(none.push(bind).push(sub), unbind, any);
    lemma_count_push(none, bind, in_place);
    lemma_count_push(none.push(bind), sub, in_place);
    lemma_count_push(none.push(bind).push(sub), unbind, in_place);
}

} // verus!
