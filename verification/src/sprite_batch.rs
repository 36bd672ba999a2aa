//! The sprite batch: a fixed number of quads collected each frame into one
//! vertex buffer and drawn with one indexed draw call.

use vstd::prelude::*;
use crate::buffers::{
    full_upload, vertex_array_setup, BufferObject, BufferType, BufferUsage, VertexArray,
};
use crate::buffers::lemma_full_upload_counts;
use crate::commands::{
    allocations, draw_calls, lemma_count_add, lemma_count_none, lemma_count_push, Command,
};
use crate::primitives::{DrawMode, Primitives};
use crate::sprite::{sprite_quad, Sprite, SpriteData};
use crate::texture::Texture;
use crate::types::{pack_vertices, packed, quad_indices, zero_vertex, Quad, Scalar, Vertex, QUAD_STRIDE, SCALAR_SIZE, VERTEX_STRIDE};

verus! {

/// The largest capacity whose vertex indices still fit in 32 bits.
pub const MAX_CAPACITY: usize = 0x3fff_ffff;

/// The native handles a batch is built on, each freshly generated.
#[derive(Clone, Copy, Debug, PartialEq, Eq)]
pub struct BatchHandles {
    pub vertex_array: u32,
    pub vertex_buffer: u32,
    pub index_buffer: u32,
}

/// The index at place `i` of the index buffer: place `i % 6` of the quad
/// pattern, moved on by four vertices for each quad before it.
pub open spec fn index_at(i: int) -> u32 {
    (4 * (i / 6) + quad_indices()[i % 6]) as u32
}

/// The content of the index buffer of a batch of `capacity` quads.
pub open spec fn index_pattern(capacity: nat) -> Seq<u32> {
    Seq::new(6 * capacity, |i: int| index_at(i))
}

/// The six indices of quad number `quad`.
pub open spec fn quad_index_run(quad: nat) -> Seq<u32> {
    seq![
        (4 * quad + 3) as u32,
        (4 * quad + 2) as u32,
        (4 * quad) as u32,
        (4 * quad + 2) as u32,
        (4 * quad + 1) as u32,
        (4 * quad) as u32,
    ]
}

/// The index buffer of a batch is the runs of its quads, one after the
/// other: one quad more appends the run of that quad and changes nothing before it.
pub proof fn lemma_index_pattern_grows(capacity: nat)
    ensures
        index_pattern(0) == Seq::<u32>::empty(),
        index_pattern(capacity + 1) == index_pattern(capacity) + quad_index_run(capacity),
{
    assert(index_pattern(0) =~= Seq::<u32>::empty());
    let grown = index_pattern(capacity + 1);
    let joined = index_pattern(capacity) + quad_index_run(capacity);
    assert(grown.len() == joined.len());
    assert forall|i: int| 0 <= i < grown.len() implies grown[i] == joined[i] by {
        if i >= 6 * capacity {
            let k = i - 6 * capacity;
            assert(i / 6 == capacity && i % 6 == k);
            assert(joined[i] == quad_index_run(capacity)[k]);
        }
    }
    assert(grown =~= joined);
}

/// The vertex storage after the four corners of `quad` are written to slot `index`.
pub open spec fn stored<S>(vertices: Seq<Vertex<S>>, index: int, quad: Quad<S>) -> Seq<Vertex<S>> {
    vertices.update(4 * index, quad.v0).update(4 * index + 1, quad.v1).update(
        4 * index + 2,
        quad.v2,
    ).update(4 * index + 3, quad.v3)
}

/// The vertex storage after the first `n` sprites of `sprites` are written
/// to the slots from `first` on.
pub open spec fn stored_all<S: Scalar>(
    vertices: Seq<Vertex<S>>,
    first: int,
    sprites: Seq<SpriteData<S>>,
    n: nat,
) -> Seq<Vertex<S>>
    decreases n,
{
    if n == 0 {
        vertices
    } else {
        stored(
            stored_all(vertices, first, sprites, (n - 1) as nat),
            first + n - 1,
            sprite_quad(sprites[n - 1]),
        )
    }
}

/// The commands of one draw of `count` quads: the texture at unit 0, the
/// vertex array and the index buffer bound, one indexed draw of six indices
/// a quad, and both unbound again. Nothing at all for no quads.
pub open spec fn draw_commands(
    texture: u32,
    vertex_array: u32,
    index_buffer: u32,
    count: usize,
) -> Seq<Command> {
    if count == 0 {
        seq![]
    } else {
        seq![
            Command::BindTexture { id: texture, unit: 0 },
            Command::BindVertexArray { id: vertex_array },
            Command::BindBuffer { target: BufferType::IndexBuffer, id: index_buffer },
            Command::DrawElements { mode: DrawMode::Triangles, count: (count * 6) as usize },
            Command::BindVertexArray { id: 0 },
            Command::BindBuffer { target: BufferType::IndexBuffer, id: 0 },
        ]
    }
}

/// The commands by which a batch of `size` quads is set up: the vertex
/// array over its buffer, the upload of the whole vertex storage, and the
/// one upload of the index buffer.
pub open spec fn setup_commands(handles: BatchHandles, size: usize) -> Seq<Command> {
    vertex_array_setup(handles.vertex_array, handles.vertex_buffer, 0) + full_upload(
        handles.vertex_buffer,
        BufferType::ArrayBuffer,
        BufferUsage::StaticDraw,
        (size * QUAD_STRIDE) as usize,
    ) + full_upload(
        handles.index_buffer,
        BufferType::IndexBuffer,
        BufferUsage::StaticDraw,
        (size * 6 * SCALAR_SIZE) as usize,
    )
}

/// The commands that release what of `handles` is not released yet.
pub open spec fn release_commands(handles: BatchHandles) -> Seq<Command> {
    (if handles.vertex_array != 0 {
        seq![Command::DeleteVertexArray { id: handles.vertex_array }]
    } else {
        seq![]
    }) + (if handles.vertex_buffer != 0 {
        seq![Command::DeleteBuffer { id: handles.vertex_buffer }]
    } else {
        seq![]
    }) + (if handles.index_buffer != 0 {
        seq![Command::DeleteBuffer { id: handles.index_buffer }]
    } else {
        seq![]
    })
}

/// A reusable container of at most `capacity` quads that share one texture.
pub struct SpriteBatch<S> {
    texture_id: u32,
    vertices: Vec<Vertex<S>>,
    indices: Vec<u32>,
    vertex_array: VertexArray,
    index_buffer: BufferObject,
    size: usize,
    modified: bool,
    count: usize,
}

impl<S: Scalar> SpriteBatch<S> {
    /// The fixed number of quads the batch can hold.
    pub closed spec fn capacity_spec(&self) -> nat {
        self.size as nat
    }

    /// The number of quads pushed since the last `begin`.
    pub closed spec fn count(&self) -> nat {
        self.count as nat
    }

    /// Whether quads were pushed that are not uploaded yet.
    pub closed spec fn modified(&self) -> bool {
        self.modified
    }

    /// The vertex storage, four vertices a slot.
    pub closed spec fn vertices(&self) -> Seq<Vertex<S>> {
        self.vertices@
    }

    /// The content of the index buffer.
    pub closed spec fn indices(&self) -> Seq<u32> {
        self.indices@
    }

    /// The handle of the texture all quads are drawn with.
    pub closed spec fn texture(&self) -> u32 {
        self.texture_id
    }

    /// The handles of the vertex array, its vertex buffer and the index buffer.
    pub closed spec fn handles(&self) -> BatchHandles {
        BatchHandles {
            vertex_array: self.vertex_array.handle(),
            vertex_buffer: self.vertex_array.buffer().handle(),
            index_buffer: self.index_buffer.handle(),
        }
    }

    /// Whether the two buffers are of the kinds and usage the batch gave them.
    pub closed spec fn buffers_wf(&self) -> bool {
        &&& self.vertex_array.buffer().kind() == BufferType::ArrayBuffer
        &&& self.vertex_array.buffer().usage() == BufferUsage::StaticDraw
        &&& self.index_buffer.kind() == BufferType::IndexBuffer
        &&& self.index_buffer.usage() == BufferUsage::StaticDraw
    }

    /// The invariant of a batch: the live count is within the capacity,
    /// the vertex storage holds four vertices a slot, and the index buffer
    /// holds the pattern of the capacity.
    pub open spec fn wf(&self) -> bool {
        &&& self.count() <= self.capacity_spec() <= MAX_CAPACITY
        &&& self.capacity_spec() * QUAD_STRIDE <= usize::MAX
        &&& self.vertices().len() == 4 * self.capacity_spec()
        &&& self.indices() == index_pattern(self.capacity_spec())
        &&& self.buffers_wf()
    }

    /// Whether two states of a batch differ in nothing that is fixed at
    /// construction: capacity, texture, handles and index buffer.
    pub open spec fn same_setup(&self, other: &Self) -> bool {
        &&& self.capacity_spec() == other.capacity_spec()
        &&& self.texture() == other.texture()
        &&& self.handles() == other.handles()
        &&& self.indices() == other.indices()
    }

    /// A batch of `size` quads drawn with `texture`, on freshly generated
    /// native handles. The vertex storage starts as zero vertices and is
    /// uploaded whole; the index pattern is generated and uploaded, here
    /// and nowhere else. A handle 0 is reported as a failed allocation, and
    /// nothing is asked of the graphics API then.
    pub fn new(
        queue: &mut Vec<Command>,
        texture: &Texture,
        size: usize,
        handles: BatchHandles,
    ) -> (result: Result<SpriteBatch<S>, String>)
        requires
            size <= MAX_CAPACITY,
            size * QUAD_STRIDE <= usize::MAX,
        ensures
            result is Ok <==> handles.vertex_array != 0 && handles.vertex_buffer != 0
                && handles.index_buffer != 0,
            result is Ok ==> {
                let batch = result->Ok_0;
                &&& batch.wf()
                &&& batch.capacity_spec() == size
                &&& batch.count() == 0
                &&& !batch.modified()
                &&& batch.texture() == texture.handle()
                &&& batch.handles() == handles
                &&& batch.indices() == index_pattern(size as nat)
                &&& forall|i: int|
                    0 <= i < 4 * size ==> batch.vertices()[i] == zero_vertex::<S>()
                &&& final(queue)@ == old(queue)@ + setup_commands(handles, size)
            },
            result is Err ==> final(queue)@ == old(queue)@ && result->Err_0@
                == "failed to allocate buffer"@,
    {
        if handles.vertex_array == 0 || handles.vertex_buffer == 0 || handles.index_buffer == 0 {
            return Err("failed to allocate buffer".to_string());
        }
        let mut vertices: Vec<Vertex<S>> = Vec::new();
        let mut filled: usize = 0;
        while filled < size * 4
            invariant
                size <= MAX_CAPACITY,
                filled <= size * 4,
                vertices@.len() == filled,
                forall|i: int| 0 <= i < filled ==> vertices@[i] == zero_vertex::<S>(),
            decreases size * 4 - filled,
        {
            vertices.push(Vertex::zero());
            filled += 1;
        }
        let mut indices: Vec<u32> = Vec::new();
        let mut quad: usize = 0;
        let mut ofs: u32 = 0;
        while quad < size
            invariant
                size <= MAX_CAPACITY,
                quad <= size,
                ofs == 4 * quad,
                indices@ == index_pattern(quad as nat),
            decreases size - quad,
        {
            // repeat indices: 3, 2, 0, 2, 1, 0
            indices.push(ofs + 3);
            indices.push(ofs + 2);
            indices.push(ofs);
            indices.push(ofs + 2);
            indices.push(ofs + 1);
            indices.push(ofs);
            proof {
                lemma_index_pattern_grows(quad as nat);
                assert(indices@ =~= index_pattern(quad as nat) + quad_index_run(quad as nat));
            }
            ofs += 4;
            quad += 1;
        }
        let mut vertex_array = match VertexArray::new(
            queue,
            handles.vertex_array,
            handles.vertex_buffer,
            BufferUsage::StaticDraw,
            0,
        ) {
            Ok(vertex_array) => vertex_array,
            Err(message) => {
                return Err(message);
            },
        };
        vertex_array.copy_vertices_to_buffer(queue, &vertices, size * 4);
        let index_buffer = match BufferObject::new(
            handles.index_buffer,
            BufferType::IndexBuffer,
            BufferUsage::StaticDraw,
        ) {
            Ok(index_buffer) => index_buffer,
            Err(message) => {
                return Err(message);
            },
        };
        index_buffer.copy_u32_to_buffer(queue, &indices, size * 6);
        assert(final(queue)@ =~= old(queue)@ + setup_commands(handles, size));
        Ok(
            SpriteBatch {
                texture_id: texture.id(),
                vertices,
                indices,
                vertex_array,
                index_buffer,
                size,
                modified: false,
                count: 0,
            },
        )
    }

    /// Uploads the live vertices if any were pushed since the last upload.
    pub fn update(&mut self, queue: &mut Vec<Command>)
        requires
            old(self).wf(),
        ensures
            final(self).wf(),
            final(self).same_setup(old(self)),
            final(self).count() == old(self).count(),
            final(self).vertices() == old(self).vertices(),
            !final(self).modified(),
            final(queue)@ == old(queue)@ + old(self).upload_commands(),
    {
        if !self.modified {
            assert(final(queue)@ =~= old(queue)@ + old(self).upload_commands());
            return ;
        }
        if self.count > 0 {
            self.vertex_array.copy_vertices_to_buffer(queue, &self.vertices, self.count * 4);
        }
        self.modified = false;
        assert(final(queue)@ =~= old(queue)@ + old(self).upload_commands());
    }

    /// What the next `end` uploads: the live vertices, `count * 4` of them,
    /// in one full upload of the vertex buffer; nothing if nothing was
    /// pushed since the last upload.
    pub open spec fn upload_commands(&self) -> Seq<Command> {
        if self.modified() && self.count() > 0 {
            full_upload(
                self.handles().vertex_buffer,
                BufferType::ArrayBuffer,
                BufferUsage::StaticDraw,
                (self.count() * 4 * VERTEX_STRIDE) as usize,
            )
        } else {
            seq![]
        }
    }

    /// Starts a frame: the batch is empty again. The capacity and the
    /// storage behind it stay as they are.
    pub fn begin(&mut self)
        requires
            old(self).wf(),
        ensures
            final(self).wf(),
            final(self).same_setup(old(self)),
            final(self).count() == 0,
            final(self).modified() == old(self).modified(),
            final(self).vertices() == old(self).vertices(),
    {
        self.count = 0;
    }

    /// Ends a frame: what was pushed is uploaded.
    pub fn end(&mut self, queue: &mut Vec<Command>)
        requires
            old(self).wf(),
        ensures
            final(self).wf(),
            final(self).same_setup(old(self)),
            final(self).count() == old(self).count(),
            final(self).vertices() == old(self).vertices(),
            !final(self).modified(),
            final(queue)@ == old(queue)@ + old(self).upload_commands(),
    {
        self.update(queue);
    }

    /// Adds the quad of `data` in the next free slot.
    pub fn push_data(&mut self, data: &SpriteData<S>)
        requires
            old(self).wf(),
            old(self).count() < old(self).capacity_spec(),
        ensures
            final(self).wf(),
            final(self).same_setup(old(self)),
            final(self).count() == old(self).count() + 1,
            final(self).modified(),
            final(self).vertices() == stored(
                old(self).vertices(),
                old(self).count() as int,
                sprite_quad(*data),
            ),
    {
        let index = self.count;
        self.count += 1;
        self.modified = true;
        let quad = data.to_quad();
        let ofs = index * 4;
        self.vertices.set(ofs, quad.v0);
        self.vertices.set(ofs + 1, quad.v1);
        self.vertices.set(ofs + 2, quad.v2);
        self.vertices.set(ofs + 3, quad.v3);
    }

    /// Adds the quad of `sprite` in the next free slot. A full batch is the
    /// caller's error.
    pub fn push<T: Sprite<S>>(&mut self, sprite: &T)
        requires
            old(self).wf(),
            old(self).count() < old(self).capacity_spec(),
        ensures
            final(self).wf(),
            final(self).same_setup(old(self)),
            final(self).count() == old(self).count() + 1,
            final(self).modified(),
            final(self).vertices() == stored(
                old(self).vertices(),
                old(self).count() as int,
                sprite_quad(sprite.sprite_data()),
            ),
    {
        let data = sprite.get_sprite_data();
        self.push_data(data);
    }

    /// Draws the live quads.
    pub fn draw(&self, queue: &mut Vec<Command>)
        requires
            self.wf(),
        ensures
            final(queue)@ == old(queue)@ + draw_commands(
                self.texture(),
                self.handles().vertex_array,
                self.handles().index_buffer,
                self.count() as usize,
            ),
    {
        self.draw_buffered(queue, self.count);
    }

    /// Draws the first `count` quads of the vertex buffer.
    pub fn draw_buffered(&self, queue: &mut Vec<Command>, count: usize)
        requires
            self.wf(),
            count * 6 <= usize::MAX,
        ensures
            final(queue)@ == old(queue)@ + draw_commands(
                self.texture(),
                self.handles().vertex_array,
                self.handles().index_buffer,
                count,
            ),
    {
        if 0 == count {
            assert(final(queue)@ =~= old(queue)@ + Seq::<Command>::empty());
            return ;
        }
        Primitives::bind_texture(queue, self.texture_id, 0);
        self.vertex_array.bind(queue);
        self.index_buffer.bind(queue);
        Primitives::draw_elements(queue, DrawMode::Triangles, count * 6);
        self.vertex_array.unbind(queue);
        self.index_buffer.unbind(queue);
        assert(final(queue)@ =~= old(queue)@ + draw_commands(
            self.texture(),
            self.handles().vertex_array,
            self.handles().index_buffer,
            count,
        ));
    }

    /// Adds the quads of `count` sprites of `sprites`, from place `offset`
    /// on, in the next free slots in their order.
    pub fn push_vec<T: Sprite<S>>(&mut self, sprites: &Vec<T>, offset: usize, count: usize)
        requires
            old(self).wf(),
            offset + count < sprites@.len(),
            old(self).count() + count <= old(self).capacity_spec(),
        ensures
            final(self).wf(),
            final(self).same_setup(old(self)),
            final(self).count() == old(self).count() + count,
            final(self).modified() == (old(self).modified() || count > 0),
            final(self).vertices() == stored_all(
                old(self).vertices(),
                old(self).count() as int,
                Seq::new(count as nat, |j: int| sprites@[offset + j].sprite_data()),
                count as nat,
            ),
    {
        let ghost before = *self;
        let ghost data = Seq::new(count as nat, |j: int| sprites@[offset + j].sprite_data());
        let total = sprites.len();
        let mut i: usize = 0;
        while i < count
            invariant
                i <= count,
                total == sprites@.len(),
                offset + count < total,
                before.count() + count <= before.capacity_spec(),
                self.wf(),
                self.same_setup(&before),
                self.count() == before.count() + i,
                self.modified() == (before.modified() || i > 0),
                data == Seq::new(count as nat, |j: int| sprites@[offset + j].sprite_data()),
                self.vertices() == stored_all(
                    before.vertices(),
                    before.count() as int,
                    data,
                    i as nat,
                ),
            decreases count - i,
        {
            self.push(&sprites[offset + i]);
            i += 1;
        }
    }

    /// The scalars of the live vertices, packed as the next `end` uploads them.
    pub fn live_scalars(&self) -> (scalars: Vec<S>)
        requires
            self.wf(),
        ensures
            scalars@ == packed(self.vertices(), 4 * self.count()),
            scalars@.len() * SCALAR_SIZE == self.count() * 4 * VERTEX_STRIDE,
    {
        pack_vertices(&self.vertices, self.count * 4)
    }

    /// Whether the batch holds as many quads as it can.
    pub fn is_full(&self) -> (full: bool)
        requires
            self.wf(),
        ensures
            full == (self.count() == self.capacity_spec()),
    {
        self.count >= self.size
    }

    /// The number of quads pushed since the last `begin`.
    pub fn len(&self) -> (count: usize)
        ensures
            count == self.count(),
    {
        self.count
    }

    /// Whether quads were pushed that are not uploaded yet.
    pub fn is_modified(&self) -> (modified: bool)
        ensures
            modified == self.modified(),
    {
        self.modified
    }

    /// The vertex in place `i` of the vertex storage.
    pub fn vertex(&self, i: usize) -> (vertex: Vertex<S>)
        requires
            i < self.vertices().len(),
        ensures
            vertex == self.vertices()[i as int],
    {
        self.vertices[i]
    }

    /// The index in place `i` of the index buffer.
    pub fn index(&self, i: usize) -> (index: u32)
        requires
            i < self.indices().len(),
        ensures
            index == self.indices()[i as int],
    {
        self.indices[i]
    }

    /// Releases the vertex array and both buffers, each only if it is not
    /// released yet.
    pub fn free(&mut self, queue: &mut Vec<Command>)
        requires
            old(self).wf(),
        ensures
            final(self).wf(),
            final(self).handles() == (BatchHandles {
                vertex_array: 0,
                vertex_buffer: 0,
                index_buffer: 0,
            }),
            final(self).capacity_spec() == old(self).capacity_spec(),
            final(self).count() == old(self).count(),
            final(self).modified() == old(self).modified(),
            final(self).vertices() == old(self).vertices(),
            final(self).texture() == old(self).texture(),
            final(queue)@ == old(queue)@ + release_commands(old(self).handles()),
    {
        self.vertex_array.free(queue);
        self.index_buffer.free(queue);
        assert(final(queue)@ =~= old(queue)@ + release_commands(old(self).handles()));
    }

    pub fn capacity(&self) -> (capacity: usize)
        ensures
            capacity == self.capacity_spec(),
    {
        self.size
    }
}

/// The index buffer is uploaded when the batch is set up and never again:
/// the setup allocates index storage once, and neither the upload at the end
/// of a frame nor a draw allocates any.
pub proof fn lemma_index_buffer_uploaded_once<S: Scalar>(
    batch: SpriteBatch<S>,
    handles: BatchHandles,
    size: usize,
    count: usize,
)
    ensures
        allocations(setup_commands(handles, size), BufferType::IndexBuffer) == 1,
        allocations(batch.upload_commands(), BufferType::IndexBuffer) == 0,
        allocations(
            draw_commands(batch.texture(), handles.vertex_array, handles.index_buffer, count),
            BufferType::IndexBuffer,
        ) == 0,
{
    let index = |c: Command| c.allocates(BufferType::IndexBuffer);
    let setup = vertex_array_setup(handles.vertex_array, handles.vertex_buffer, 0);
    let vertex_upload = full_upload(
        handles.vertex_buffer,
        BufferType::ArrayBuffer,
        BufferUsage::StaticDraw,
        (size * QUAD_STRIDE) as usize,
    );
    let index_upload = full_upload(
        handles.index_buffer,
        BufferType::IndexBuffer,
        BufferUsage::StaticDraw,
        (size * 6 * SCALAR_SIZE) as usize,
    );
    lemma_count_none(setup, index);
    lemma_full_upload_counts(
        handles.vertex_buffer,
        BufferType::ArrayBuffer,
        BufferUsage::StaticDraw,
        (size * QUAD_STRIDE) as usize,
        BufferType::IndexBuffer,
    );
    lemma_full_upload_counts(
        handles.index_buffer,
        BufferType::IndexBuffer,
        BufferUsage::StaticDraw,
        (size * 6 * SCALAR_SIZE) as usize,
        BufferType::IndexBuffer,
    );
    lemma_count_add(setup, vertex_upload, index);
    lemma_count_add(setup + vertex_upload, index_upload, index);
    lemma_count_none(batch.upload_commands(), index);
    lemma_count_none(
        draw_commands(batch.texture(), handles.vertex_array, handles.index_buffer, count),
        index,
    );
}

/// An empty batch draws nothing; a batch of `count` quads draws with one
/// draw call, which asks for six indices a quad.
pub proof fn lemma_one_draw_call(texture: u32, vertex_array: u32, index_buffer: u32, count: usize)
    ensures
        count == 0 ==> draw_commands(texture, vertex_array, index_buffer, count).len() == 0,
        draw_calls(draw_commands(texture, vertex_array, index_buffer, count)) == (if count == 0 {
            0nat
        } else {
            1nat
        }),
        count > 0 ==> draw_commands(texture, vertex_array, index_buffer, count)[3]
            == (Command::DrawElements {
            mode: DrawMode::Triangles,
            count: (count * 6) as usize,
        }),
{
    let draws = |c: Command| c.is_draw();
    let commands = draw_commands(texture, vertex_array, index_buffer, count);
    if count == 0 {
        lemma_count_none(commands, draws);
    } else {
        let head = commands.subrange(0, 3);
        let tail = commands.subrange(4, 6);
        let call = commands[3];
        assert(commands =~= head.push(call) + tail);
        lemma_count_none(head, draws);
        lemma_count_none(tail, draws);
        lemma_count_push(head, call, draws);
        lemma_count_add(head.push(call), tail, draws);
    }
}

} // verus!
