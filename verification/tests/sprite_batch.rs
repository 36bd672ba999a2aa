use gamekit::buffers::{BufferType, BufferUsage};
use gamekit::commands::Command;
use gamekit::primitives::DrawMode;
use gamekit::shader::{CompileOutcome, Shader, ShaderType};
use gamekit::sprite::{Sprite, SpriteData};
use gamekit::sprite_batch::{BatchHandles, SpriteBatch};
use gamekit::texture::{ColorType, Image, Texture, TextureData};
use gamekit::types::{pack_vertices, Color, Quad, Rectangle, Scalar, Vector2, Vertex};

/// A 32-bit float as a scalar of the library.
#[derive(Clone, Copy, Debug, PartialEq)]
struct Real(f32);

impl Scalar for Real {
    fn origin() -> Real {
        Real(0.0)
    }

    fn unit() -> Real {
        Real(1.0)
    }

    fn sum(self, rhs: Real) -> Real {
        Real(self.0 + rhs.0)
    }

    fn zero() -> Real {
        Real(0.0)
    }

    fn one() -> Real {
        Real(1.0)
    }

    fn plus(self, rhs: Real) -> Real {
        Real(self.0 + rhs.0)
    }
}

/// Something that is drawn as a sprite without being one.
struct Particle {
    age: u32,
    sprite: SpriteData<i32>,
}

impl Sprite<i32> for Particle {
    fn sprite_data(&self) -> SpriteData<i32> {
        self.sprite
    }

    fn get_sprite_data(&self) -> &SpriteData<i32> {
        &self.sprite
    }
}

const HANDLES: BatchHandles = BatchHandles { vertex_array: 11, vertex_buffer: 12, index_buffer: 13 };

fn texture(id: u32) -> Texture {
    let image = Image {
        color_type: ColorType::Rgba,
        width: 1,
        height: 1,
        palette: None,
        pixels: vec![255, 255, 255, 255],
    };
    let data = TextureData::from_image(&image).unwrap();
    Texture::new(id, &data, true).unwrap()
}

fn batch(size: usize) -> SpriteBatch<i32> {
    let mut queue = Vec::new();
    let texture = texture(21);
    SpriteBatch::new(&mut queue, &texture, size, HANDLES).unwrap()
}

fn sprite(x: i32, y: i32, w: i32, h: i32) -> SpriteData<i32> {
    SpriteData {
        position: Vector2::new(x, y),
        size: Vector2::new(w, h),
        color: Color::new(9, 8, 7, 6),
        texture_coords: Rectangle::one(),
    }
}

fn uploads_of(queue: &[Command], target: BufferType) -> Vec<usize> {
    let mut sizes = Vec::new();
    for command in queue {
        if let Command::BufferData { target: t, size, .. } = command {
            if *t == target {
                sizes.push(*size);
            }
        }
    }
    sizes
}

fn draw_calls(queue: &[Command]) -> usize {
    queue
        .iter()
        .filter(|c| {
            matches!(
                c,
                Command::DrawElements { .. }
                    | Command::DrawArrays { .. }
                    | Command::DrawElementsInstanced { .. }
            )
        })
        .count()
}

#[test]
fn quad_expansion_corners() {
    let coords = Rectangle::new(10, 20, 5, 5);
    let color = Color::new(1, 2, 3, 4);
    let quad = Quad::new(coords, color, Rectangle::new(0, 0, 1, 1));
    assert_eq!(quad.v0, Vertex::new(10, 20, 0, color, 0, 0));
    assert_eq!(quad.v1, Vertex::new(15, 20, 0, color, 1, 0));
    assert_eq!(quad.v2, Vertex::new(15, 25, 0, color, 1, 1));
    assert_eq!(quad.v3, Vertex::new(10, 25, 0, color, 0, 1));
}

#[test]
fn quad_expansion_corners_in_floats() {
    let data = SpriteData {
        position: Vector2::new(Real(10.0), Real(20.0)),
        size: Vector2::new(Real(5.0), Real(5.0)),
        color: Color::new(Real(1.0), Real(0.5), Real(0.25), Real(1.0)),
        texture_coords: Rectangle::new(Real(0.0), Real(0.0), Real(1.0), Real(1.0)),
    };
    let quad = data.to_quad();
    let corners: Vec<(f32, f32, f32)> = quad
        .to_vector()
        .iter()
        .map(|v| (v.coords.x.0, v.coords.y.0, v.coords.z.0))
        .collect();
    assert_eq!(
        corners,
        vec![(10.0, 20.0, 0.0), (15.0, 20.0, 0.0), (15.0, 25.0, 0.0), (10.0, 25.0, 0.0)]
    );
    let texcoords: Vec<(f32, f32)> =
        quad.to_vector().iter().map(|v| (v.texcoords.x.0, v.texcoords.y.0)).collect();
    assert_eq!(texcoords, vec![(0.0, 0.0), (1.0, 0.0), (1.0, 1.0), (0.0, 1.0)]);
    assert_eq!(quad.v2.color, data.color);
}

#[test]
fn whole_number_sums_wrap() {
    assert_eq!(i32::MAX.plus(1), i32::MIN);
    assert_eq!(i32::MIN.plus(-1), i32::MAX);
    assert_eq!(7.plus(-9), -2);
    assert_eq!(<i32 as Scalar>::zero(), 0);
    assert_eq!(<i32 as Scalar>::one(), 1);
}

#[test]
fn vertex_packs_position_color_texture() {
    let vertex = Vertex::new(1, 2, 3, Color::new(4, 5, 6, 7), 8, 9);
    assert_eq!(vertex.to_scalars(), vec![1, 2, 3, 4, 5, 6, 7, 8, 9]);
}

#[test]
fn quad_constants() {
    let indices: Vec<u32> = (0..6).map(|k| Quad::<i32>::index(k)).collect();
    assert_eq!(indices, vec![3, 2, 0, 2, 1, 0]);
    let one = Quad::<i32>::one();
    assert_eq!(one, Quad::new(Rectangle::one(), Color::one(), Rectangle::one()));
    let zero = Quad::<i32>::zero();
    assert_eq!(zero.to_vector(), vec![Vertex::zero(); 4]);
}

#[test]
fn setters_replace_every_field() {
    let mut v2 = Vector2::new(1, 2);
    v2.set(3, 4);
    assert_eq!(v2, Vector2 { x: 3, y: 4 });
    let mut rectangle = Rectangle::<i32>::zero();
    rectangle.set(1, 2, 3, 4);
    assert_eq!(rectangle, Rectangle::new(1, 2, 3, 4));
    let mut color = Color::<i32>::zero();
    color.set_color(&Color::new(1, 2, 3, 4));
    assert_eq!(color, Color::new(1, 2, 3, 4));
    let mut vertex = Vertex::<i32>::zero();
    vertex.set_color(&Color::one());
    assert_eq!(vertex, Vertex::new(0, 0, 0, Color::one(), 0, 0));
}

#[test]
fn new_batch_uploads_storage_and_index_pattern() {
    let mut queue = Vec::new();
    let texture = texture(21);
    let batch: SpriteBatch<i32> = SpriteBatch::new(&mut queue, &texture, 3, HANDLES).unwrap();
    assert_eq!(batch.capacity(), 3);
    assert_eq!(batch.len(), 0);
    assert!(!batch.is_modified());
    assert_eq!(uploads_of(&queue, BufferType::ArrayBuffer), vec![3 * 4 * 36]);
    assert_eq!(uploads_of(&queue, BufferType::IndexBuffer), vec![3 * 6 * 4]);
    assert_eq!(queue.len(), 10 + 3 + 3);
    assert_eq!(
        queue[13..16],
        [
            Command::BindBuffer { target: BufferType::IndexBuffer, id: 13 },
            Command::BufferData {
                target: BufferType::IndexBuffer,
                size: 72,
                usage: BufferUsage::StaticDraw
            },
            Command::BindBuffer { target: BufferType::IndexBuffer, id: 0 },
        ]
    );
    for i in 0..12 {
        assert_eq!(batch.vertex(i), Vertex::zero());
    }
}

#[test]
fn index_pattern_repeats_per_quad() {
    let batch = batch(3);
    let indices: Vec<u32> = (0..18).map(|i| batch.index(i)).collect();
    assert_eq!(indices, vec![3, 2, 0, 2, 1, 0, 7, 6, 4, 6, 5, 4, 11, 10, 8, 10, 9, 8]);
}

#[test]
fn index_pattern_of_a_large_batch() {
    let capacity = 1000;
    let batch = batch(capacity);
    for quad in 0..capacity {
        let base = 4 * quad as u32;
        let run: Vec<u32> = (0..6).map(|k| batch.index(6 * quad + k)).collect();
        assert_eq!(run, vec![base + 3, base + 2, base, base + 2, base + 1, base]);
    }
}

#[test]
fn batch_without_handles_asks_for_nothing() {
    let mut queue = Vec::new();
    let texture = texture(21);
    for handles in [
        BatchHandles { vertex_array: 0, ..HANDLES },
        BatchHandles { vertex_buffer: 0, ..HANDLES },
        BatchHandles { index_buffer: 0, ..HANDLES },
    ] {
        let failed: Result<SpriteBatch<i32>, String> =
            SpriteBatch::new(&mut queue, &texture, 4, handles);
        assert_eq!(failed.err().unwrap(), "failed to allocate buffer");
    }
    assert!(queue.is_empty());
}

#[test]
fn begin_push_push_end_uploads_eight_vertices() {
    let mut batch = batch(2);
    let mut queue = Vec::new();
    batch.begin();
    batch.push(&sprite(10, 20, 5, 5));
    batch.push(&sprite(1, 2, 3, 4));
    assert!(batch.is_modified());
    batch.end(&mut queue);
    assert_eq!(batch.len(), 2);
    assert!(!batch.is_modified());
    assert_eq!(
        queue,
        vec![
            Command::BindBuffer { target: BufferType::ArrayBuffer, id: 12 },
            Command::BufferData {
                target: BufferType::ArrayBuffer,
                size: 8 * 36,
                usage: BufferUsage::StaticDraw
            },
            Command::BindBuffer { target: BufferType::ArrayBuffer, id: 0 },
        ]
    );
    batch.begin();
    assert_eq!(batch.len(), 0);
    assert_eq!(batch.capacity(), 2);
}

#[test]
fn push_writes_the_four_corners_of_its_slot() {
    let mut batch = batch(3);
    batch.begin();
    batch.push(&sprite(10, 20, 5, 5));
    batch.push(&sprite(-4, -8, 2, 3));
    let color = Color::new(9, 8, 7, 6);
    assert_eq!(batch.vertex(0), Vertex::new(10, 20, 0, color, 0, 0));
    assert_eq!(batch.vertex(1), Vertex::new(15, 20, 0, color, 1, 0));
    assert_eq!(batch.vertex(2), Vertex::new(15, 25, 0, color, 1, 1));
    assert_eq!(batch.vertex(3), Vertex::new(10, 25, 0, color, 0, 1));
    assert_eq!(batch.vertex(4), Vertex::new(-4, -8, 0, color, 0, 0));
    assert_eq!(batch.vertex(5), Vertex::new(-2, -8, 0, color, 1, 0));
    assert_eq!(batch.vertex(6), Vertex::new(-2, -5, 0, color, 1, 1));
    assert_eq!(batch.vertex(7), Vertex::new(-4, -5, 0, color, 0, 1));
    for i in 8..12 {
        assert_eq!(batch.vertex(i), Vertex::zero());
    }
}

#[test]
fn begin_keeps_storage_until_overwritten() {
    let mut batch = batch(2);
    batch.begin();
    batch.push(&sprite(10, 20, 5, 5));
    batch.push(&sprite(1, 1, 1, 1));
    batch.begin();
    batch.push(&sprite(0, 0, 2, 2));
    let color = Color::new(9, 8, 7, 6);
    assert_eq!(batch.vertex(2), Vertex::new(2, 2, 0, color, 1, 1));
    assert_eq!(batch.vertex(4), Vertex::new(1, 1, 0, color, 0, 0));
    assert_eq!(batch.len(), 1);
}

#[test]
fn batch_fills_up_to_its_capacity() {
    let mut batch = batch(3);
    batch.begin();
    for i in 0..3 {
        assert!(!batch.is_full());
        assert_eq!(batch.len(), i);
        batch.push(&sprite(i as i32, 0, 1, 1));
    }
    assert!(batch.is_full());
    assert_eq!(batch.len(), batch.capacity());
    batch.begin();
    assert!(!batch.is_full());
}

#[test]
fn batch_of_no_capacity_is_always_full() {
    let mut batch = batch(0);
    batch.begin();
    assert!(batch.is_full());
    let mut queue = Vec::new();
    batch.end(&mut queue);
    batch.draw(&mut queue);
    assert!(queue.is_empty());
}

#[test]
fn end_without_pushes_uploads_nothing() {
    let mut batch = batch(2);
    let mut queue = Vec::new();
    batch.begin();
    batch.end(&mut queue);
    assert!(queue.is_empty());
    batch.begin();
    batch.push(&sprite(0, 0, 1, 1));
    batch.end(&mut queue);
    assert_eq!(queue.len(), 3);
    // nothing changed since: a second end is silent
    batch.end(&mut queue);
    batch.update(&mut queue);
    assert_eq!(queue.len(), 3);
}

#[test]
fn draw_of_an_empty_batch_issues_nothing() {
    let mut batch = batch(4);
    let mut queue = Vec::new();
    batch.begin();
    batch.draw(&mut queue);
    batch.draw_buffered(&mut queue, 0);
    assert!(queue.is_empty());
    assert_eq!(draw_calls(&queue), 0);
}

#[test]
fn draw_issues_one_call_of_six_indices_a_quad() {
    let mut batch = batch(4);
    let mut queue = Vec::new();
    batch.begin();
    for i in 0..3 {
        batch.push(&sprite(i, i, 1, 1));
    }
    batch.end(&mut queue);
    queue.clear();
    batch.draw(&mut queue);
    assert_eq!(
        queue,
        vec![
            Command::BindTexture { id: 21, unit: 0 },
            Command::BindVertexArray { id: 11 },
            Command::BindBuffer { target: BufferType::IndexBuffer, id: 13 },
            Command::DrawElements { mode: DrawMode::Triangles, count: 18 },
            Command::BindVertexArray { id: 0 },
            Command::BindBuffer { target: BufferType::IndexBuffer, id: 0 },
        ]
    );
    assert_eq!(draw_calls(&queue), 1);
    queue.clear();
    batch.draw_buffered(&mut queue, 2);
    assert_eq!(queue[3], Command::DrawElements { mode: DrawMode::Triangles, count: 12 });
    assert_eq!(draw_calls(&queue), 1);
}

#[test]
fn index_buffer_is_uploaded_once_over_many_frames() {
    let mut queue = Vec::new();
    let texture = texture(21);
    let mut batch: SpriteBatch<i32> = SpriteBatch::new(&mut queue, &texture, 8, HANDLES).unwrap();
    for frame in 0..50 {
        batch.begin();
        for i in 0..(frame % 9) {
            batch.push(&sprite(i, frame, 1, 1));
        }
        batch.end(&mut queue);
        batch.draw(&mut queue);
    }
    assert_eq!(uploads_of(&queue, BufferType::IndexBuffer), vec![8 * 6 * 4]);
    // one vertex upload at setup and one for every frame that pushed
    assert_eq!(uploads_of(&queue, BufferType::ArrayBuffer).len(), 1 + 50 - 6);
    assert_eq!(draw_calls(&queue), 50 - 6);
}

#[test]
fn push_takes_anything_that_is_a_sprite() {
    let mut batch = batch(2);
    let particle = Particle { age: 3, sprite: sprite(5, 6, 7, 8) };
    batch.begin();
    batch.push(&particle);
    batch.push_data(particle.get_sprite_data());
    assert_eq!(particle.age, 3);
    assert_eq!(batch.len(), 2);
    assert_eq!(batch.vertex(2), batch.vertex(6));
    assert_eq!(batch.vertex(2), Vertex::new(12, 14, 0, Color::new(9, 8, 7, 6), 1, 1));
}

#[test]
fn push_vec_pushes_a_run_of_sprites() {
    let mut batch = batch(4);
    let sprites: Vec<SpriteData<i32>> = (0..6).map(|i| sprite(10 * i, 0, 1, 1)).collect();
    batch.begin();
    batch.push(&sprite(-1, -1, 1, 1));
    batch.push_vec(&sprites, 2, 3);
    assert_eq!(batch.len(), 4);
    assert!(batch.is_modified());
    assert_eq!(batch.vertex(0).coords.x, -1);
    assert_eq!(batch.vertex(4).coords.x, 20);
    assert_eq!(batch.vertex(8).coords.x, 30);
    assert_eq!(batch.vertex(12).coords.x, 40);
    assert_eq!(batch.vertex(13).coords.x, 41);
}

#[test]
fn push_vec_of_nothing_changes_nothing() {
    let mut batch = batch(4);
    let sprites: Vec<SpriteData<i32>> = vec![sprite(1, 1, 1, 1)];
    batch.begin();
    batch.push_vec(&sprites, 0, 0);
    assert_eq!(batch.len(), 0);
    assert!(!batch.is_modified());
}

#[test]
fn batch_of_floats() {
    let mut queue = Vec::new();
    let texture = texture(21);
    let mut batch: SpriteBatch<Real> = SpriteBatch::new(&mut queue, &texture, 1, HANDLES).unwrap();
    let data = SpriteData {
        position: Vector2::new(Real(0.5), Real(1.5)),
        size: Vector2::new(Real(16.0), Real(16.0)),
        color: Color::new(Real(1.0), Real(1.0), Real(1.0), Real(0.5)),
        texture_coords: Rectangle::one(),
    };
    batch.begin();
    batch.push(&data);
    assert_eq!(batch.vertex(2).coords, gamekit::types::Vector3::new(Real(16.5), Real(17.5), Real(0.0)));
    assert_eq!(batch.vertex(2).texcoords, Vector2::new(Real(1.0), Real(1.0)));
}

#[test]
fn free_releases_array_and_buffers_once() {
    let mut batch = batch(2);
    let mut queue = Vec::new();
    batch.free(&mut queue);
    batch.free(&mut queue);
    assert_eq!(
        queue,
        vec![
            Command::DeleteVertexArray { id: 11 },
            Command::DeleteBuffer { id: 12 },
            Command::DeleteBuffer { id: 13 },
        ]
    );
}

#[test]
fn shader_outcomes() {
    let mut queue = Vec::new();
    let shader =
        Shader::new(&mut queue, ShaderType::VertexShader, "a.vert", 5, CompileOutcome::Compiled)
            .unwrap();
    assert_eq!(shader.id(), 5);
    assert_eq!(shader.shader_type(), ShaderType::VertexShader);
    assert!(queue.is_empty());
    let failed = Shader::new(
        &mut queue,
        ShaderType::FragmentShader,
        "a.frag",
        6,
        CompileOutcome::Failed("0:1: syntax error".to_string()),
    );
    assert_eq!(failed.unwrap_err(), "0:1: syntax error");
    let failed =
        Shader::new(&mut queue, ShaderType::FragmentShader, "b.frag", 7, CompileOutcome::Unreadable);
    assert_eq!(failed.unwrap_err(), "failed to read shader file b.frag");
    assert_eq!(queue, vec![Command::DeleteShader { id: 6 }, Command::DeleteShader { id: 7 }]);
}

#[test]
fn vertices_pack_without_padding() {
    let vertices = vec![
        Vertex::new(1, 2, 3, Color::new(4, 5, 6, 7), 8, 9),
        Vertex::new(11, 12, 13, Color::new(14, 15, 16, 17), 18, 19),
        Vertex::new(21, 22, 23, Color::new(24, 25, 26, 27), 28, 29),
    ];
    assert_eq!(
        pack_vertices(&vertices, 2),
        vec![1, 2, 3, 4, 5, 6, 7, 8, 9, 11, 12, 13, 14, 15, 16, 17, 18, 19]
    );
    assert_eq!(pack_vertices(&vertices, 0), Vec::<i32>::new());
    assert_eq!(pack_vertices(&vertices, 3).len() * 4, 3 * 36);
}

#[test]
fn live_scalars_are_what_end_uploads() {
    let mut batch = batch(3);
    batch.begin();
    assert!(batch.live_scalars().is_empty());
    batch.push(&sprite(10, 20, 5, 5));
    let scalars = batch.live_scalars();
    assert_eq!(scalars.len() * 4, 4 * 36);
    assert_eq!(scalars[0..9], [10, 20, 0, 9, 8, 7, 6, 0, 0]);
    assert_eq!(scalars[9..18], [15, 20, 0, 9, 8, 7, 6, 1, 0]);
    assert_eq!(scalars[18..27], [15, 25, 0, 9, 8, 7, 6, 1, 1]);
    assert_eq!(scalars[27..36], [10, 25, 0, 9, 8, 7, 6, 0, 1]);
}
