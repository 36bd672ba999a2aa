//! Plain geometric data: vectors, rectangles, colors, vertices and quads.
//!
//! The types are generic over the scalar that a coordinate is made of, so
//! that the same layout rules hold for whatever number type a program feeds
//! to the graphics hardware.

use vstd::prelude::*;

verus! {

/// The number type of a coordinate or a color channel.
///
/// `sum` names what `plus` returns, `origin` and `unit` what `zero` and `one`
/// return; the library asks nothing else of a scalar. An implementation in
/// unverified code gives each of the three the body of its counterpart.
pub trait Scalar: Copy {
    spec fn origin() -> Self;

    spec fn unit() -> Self;

    spec fn sum(self, rhs: Self) -> Self;

    fn zero() -> (r: Self)
        ensures
            r == Self::origin(),
    ;

    fn one() -> (r: Self)
        ensures
            r == Self::unit(),
    ;

    fn plus(self, rhs: Self) -> (r: Self)
        ensures
            r == self.sum(rhs),
    ;
}

/// The sum of two `i32` in two's complement: the exact sum where it fits,
/// else the exact sum brought back into range by 2^32.
pub open spec fn wrapped_sum(a: i32, b: i32) -> i32 {
    if a + b > i32::MAX {
        (a + b - 0x1_0000_0000) as i32
    } else if a + b < i32::MIN {
        (a + b + 0x1_0000_0000) as i32
    } else {
        (a + b) as i32
    }
}

/// Whole-number coordinates, with wrapping addition.
impl Scalar for i32 {
    open spec fn origin() -> i32 {
        0
    }

    open spec fn unit() -> i32 {
        1
    }

    open spec fn sum(self, rhs: i32) -> i32 {
        wrapped_sum(self, rhs)
    }

    fn zero() -> (r: i32) {
        0
    }

    fn one() -> (r: i32) {
        1
    }

    fn plus(self, rhs: i32) -> (r: i32) {
        self.wrapping_add(rhs)
    }
}

#[derive(Clone, Copy, Debug, PartialEq)]
pub struct Vector2<S> {
    pub x: S,
    pub y: S,
}

impl<S: Scalar> Vector2<S> {
    pub fn new(x: S, y: S) -> (v: Self)
        ensures
            v == (Vector2 { x, y }),
    {
        Vector2 { x, y }
    }

    pub fn zero() -> (v: Self)
        ensures
            v == (Vector2 { x: S::origin(), y: S::origin() }),
    {
        Vector2 { x: S::zero(), y: S::zero() }
    }

    pub fn set(&mut self, x: S, y: S)
        ensures
            *final(self) == (Vector2 { x, y }),
    {
        self.x = x;
        self.y = y;
    }
}

/// A point or an extent in whole units.
#[derive(Clone, Copy, Debug, PartialEq)]
pub struct Vector2i {
    pub x: i32,
    pub y: i32,
}

impl Vector2i {
    pub fn new(x: i32, y: i32) -> (v: Self)
        ensures
            v == (Vector2i { x, y }),
    {
        Vector2i { x, y }
    }

    pub fn zero() -> (v: Self)
        ensures
            v == (Vector2i { x: 0, y: 0 }),
    {
        Vector2i { x: 0, y: 0 }
    }

    pub fn set(&mut self, x: i32, y: i32)
        ensures
            *final(self) == (Vector2i { x, y }),
    {
        self.x = x;
        self.y = y;
    }
}

#[derive(Clone, Copy, Debug, PartialEq)]
pub struct Vector3<S> {
    pub x: S,
    pub y: S,
    pub z: S,
}

impl<S: Scalar> Vector3<S> {
    pub fn new(x: S, y: S, z: S) -> (v: Self)
        ensures
            v == (Vector3 { x, y, z }),
    {
        Vector3 { x, y, z }
    }

    pub fn zero() -> (v: Self)
        ensures
            v == (Vector3 { x: S::origin(), y: S::origin(), z: S::origin() }),
    {
        Vector3 { x: S::zero(), y: S::zero(), z: S::zero() }
    }

    pub fn set(&mut self, x: S, y: S, z: S)
        ensures
            *final(self) == (Vector3 { x, y, z }),
    {
        self.x = x;
        self.y = y;
        self.z = z;
    }
}

#[derive(Clone, Copy, Debug, PartialEq)]
pub struct Vector4<S> {
    pub x: S,
    pub y: S,
    pub z: S,
    pub w: S,
}

impl<S: Scalar> Vector4<S> {
    pub fn new(x: S, y: S, z: S, w: S) -> (v: Self)
        ensures
            v == (Vector4 { x, y, z, w }),
    {
        Vector4 { x, y, z, w }
    }

    pub fn zero() -> (v: Self)
        ensures
            v == (Vector4 { x: S::origin(), y: S::origin(), z: S::origin(), w: S::origin() }),
    {
        Vector4 { x: S::zero(), y: S::zero(), z: S::zero(), w: S::zero() }
    }

    pub fn set(&mut self, x: S, y: S, z: S, w: S)
        ensures
            *final(self) == (Vector4 { x, y, z, w }),
    {
        self.x = x;
        self.y = y;
        self.z = z;
        self.w = w;
    }
}

/// An axis-aligned rectangle: a corner and an extent.
#[derive(Clone, Copy, Debug, PartialEq)]
pub struct Rectangle<S> {
    pub x: S,
    pub y: S,
    pub w: S,
    pub h: S,
}

impl<S: Scalar> Rectangle<S> {
    pub fn new(x: S, y: S, w: S, h: S) -> (v: Self)
        ensures
            v == (Rectangle { x, y, w, h }),
    {
        Rectangle { x, y, w, h }
    }

    pub fn zero() -> (v: Self)
        ensures
            v == (Rectangle { x: S::origin(), y: S::origin(), w: S::origin(), h: S::origin() }),
    {
        Rectangle { x: S::zero(), y: S::zero(), w: S::zero(), h: S::zero() }
    }

    pub fn set(&mut self, x: S, y: S, w: S, h: S)
        ensures
            *final(self) == (Rectangle { x, y, w, h }),
    {
        self.x = x;
        self.y = y;
        self.w = w;
        self.h = h;
    }

    /// The unit rectangle at the origin: the whole of a texture.
    pub fn one() -> (v: Self)
        ensures
            v == (Rectangle { x: S::origin(), y: S::origin(), w: S::unit(), h: S::unit() }),
    {
        Rectangle { x: S::zero(), y: S::zero(), w: S::one(), h: S::one() }
    }
}

#[derive(Clone, Copy, Debug, PartialEq)]
pub struct Color<S> {
    pub red: S,
    pub green: S,
    pub blue: S,
    pub alpha: S,
}

impl<S: Scalar> Color<S> {
    pub fn new(red: S, green: S, blue: S, alpha: S) -> (v: Self)
        ensures
            v == (Color { red, green, blue, alpha }),
    {
        Color { red, green, blue, alpha }
    }

    pub fn zero() -> (v: Self)
        ensures
            v == (Color { red: S::origin(), green: S::origin(), blue: S::origin(), alpha: S::origin() }),
    {
        Color { red: S::zero(), green: S::zero(), blue: S::zero(), alpha: S::zero() }
    }

    pub fn set(&mut self, red: S, green: S, blue: S, alpha: S)
        ensures
            *final(self) == (Color { red, green, blue, alpha }),
    {
        self.red = red;
        self.green = green;
        self.blue = blue;
        self.alpha = alpha;
    }

    /// Opaque white.
    pub fn one() -> (v: Self)
        ensures
            v == (Color {
                red: S::unit(),
                green: S::unit(),
                blue: S::unit(),
                alpha: S::unit(),
            }),
    {
        Color { red: S::one(), green: S::one(), blue: S::one(), alpha: S::one() }
    }

    pub fn set_color(&mut self, color: &Color<S>)
        ensures
            *final(self) == *color,
    {
        self.red = color.red;
        self.green = color.green;
        self.blue = color.blue;
        self.alpha = color.alpha;
    }
}

/// Bytes in one scalar as the graphics hardware reads it.
pub const SCALAR_SIZE: usize = 4;

/// Scalars in one vertex: three of position, four of color, two of texture coordinate.
pub const VERTEX_SCALARS: usize = 9;

/// Bytes from one vertex to the next in a packed vertex buffer.
pub const VERTEX_STRIDE: usize = 36;

/// Bytes in one packed quad of four vertices.
pub const QUAD_STRIDE: usize = 144;

/// A vertex as the shader pipeline consumes it: position, then color, then
/// texture coordinate, packed without padding.
#[derive(Clone, Copy, Debug, PartialEq)]
pub struct Vertex<S> {
    pub coords: Vector3<S>,
    pub color: Color<S>,
    pub texcoords: Vector2<S>,
}

/// The vertex at `(x, y, z)` with the given color and texture coordinate.
pub open spec fn vertex_at<S>(x: S, y: S, z: S, color: Color<S>, u: S, v: S) -> Vertex<S> {
    Vertex { coords: Vector3 { x, y, z }, color, texcoords: Vector2 { x: u, y: v } }
}

/// The vertex at the origin with all channels zero.
pub open spec fn zero_vertex<S: Scalar>() -> Vertex<S> {
    vertex_at(
        S::origin(),
        S::origin(),
        S::origin(),
        Color { red: S::origin(), green: S::origin(), blue: S::origin(), alpha: S::origin() },
        S::origin(),
        S::origin(),
    )
}

/// The nine scalars of a vertex in the order in which they are packed.
pub open spec fn vertex_scalars<S>(vertex: Vertex<S>) -> Seq<S> {
    seq![
        vertex.coords.x,
        vertex.coords.y,
        vertex.coords.z,
        vertex.color.red,
        vertex.color.green,
        vertex.color.blue,
        vertex.color.alpha,
        vertex.texcoords.x,
        vertex.texcoords.y,
    ]
}

impl<S: Scalar> Vertex<S> {
    pub fn new(x: S, y: S, z: S, color: Color<S>, u: S, v: S) -> (vertex: Self)
        ensures
            vertex == vertex_at(x, y, z, color, u, v),
    {
        Vertex { coords: Vector3::new(x, y, z), color, texcoords: Vector2::new(u, v) }
    }

    pub fn zero() -> (vertex: Self)
        ensures
            vertex == zero_vertex::<S>(),
    {
        Vertex { coords: Vector3::zero(), color: Color::zero(), texcoords: Vector2::zero() }
    }

    pub fn set_color(&mut self, color: &Color<S>)
        ensures
            final(self).color == *color,
            final(self).coords == old(self).coords,
            final(self).texcoords == old(self).texcoords,
    {
        self.color.set_color(color);
    }

    /// The vertex as a span of scalars in packing order, ready for upload.
    pub fn to_scalars(&self) -> (scalars: Vec<S>)
        ensures
            scalars@ == vertex_scalars(*self),
            scalars@.len() == VERTEX_SCALARS,
    {
        let scalars = vec![
            self.coords.x,
            self.coords.y,
            self.coords.z,
            self.color.red,
            self.color.green,
            self.color.blue,
            self.color.alpha,
            self.texcoords.x,
            self.texcoords.y,
        ];
        assert(scalars@ =~= vertex_scalars(*self));
        scalars
    }
}

/// The scalars of the first `count` vertices of `vertices`, vertex after
/// vertex, each in packing order.
pub open spec fn packed<S>(vertices: Seq<Vertex<S>>, count: nat) -> Seq<S> {
    Seq::new(
        VERTEX_SCALARS as nat * count,
        |i: int| vertex_scalars(vertices[i / VERTEX_SCALARS as int])[i % VERTEX_SCALARS as int],
    )
}

/// Packs the first `count` vertices of `vertices` into the span of scalars
/// that an upload of them sends: nine scalars a vertex, no padding.
pub fn pack_vertices<S: Scalar>(vertices: &Vec<Vertex<S>>, count: usize) -> (scalars: Vec<S>)
    requires
        count <= vertices@.len(),
        count * VERTEX_SCALARS <= usize::MAX,
    ensures
        scalars@ == packed(vertices@, count as nat),
        scalars@.len() * SCALAR_SIZE == count * VERTEX_STRIDE,
{
    let mut scalars: Vec<S> = Vec::new();
    let mut i: usize = 0;
    while i < count
        invariant
            i <= count <= vertices@.len(),
            scalars@ == packed(vertices@, i as nat),
        decreases count - i,
    {
        let vertex = vertices[i];
        scalars.push(vertex.coords.x);
        scalars.push(vertex.coords.y);
        scalars.push(vertex.coords.z);
        scalars.push(vertex.color.red);
        scalars.push(vertex.color.green);
        scalars.push(vertex.color.blue);
        scalars.push(vertex.color.alpha);
        scalars.push(vertex.texcoords.x);
        scalars.push(vertex.texcoords.y);
        assert(scalars@ =~= packed(vertices@, (i + 1) as nat));
        i += 1;
    }
    scalars
}

/// The packing order agrees with the declared layout: position starts at
/// scalar 0, color at scalar 3 and texture coordinate at scalar 7 of the
/// nine, and nine scalars make up the stride.
pub proof fn lemma_vertex_layout<S>(vertex: Vertex<S>)
    ensures
        vertex_scalars(vertex).len() == VERTEX_SCALARS,
        VERTEX_SCALARS * SCALAR_SIZE == VERTEX_STRIDE,
        4 * VERTEX_STRIDE == QUAD_STRIDE,
        vertex_scalars(vertex).subrange(0, 3) == seq![
            vertex.coords.x,
            vertex.coords.y,
            vertex.coords.z,
        ],
        vertex_scalars(vertex).subrange(3, 7) == seq![
            vertex.color.red,
            vertex.color.green,
            vertex.color.blue,
            vertex.color.alpha,
        ],
        vertex_scalars(vertex).subrange(7, 9) == seq![vertex.texcoords.x, vertex.texcoords.y],
{
    assert(vertex_scalars(vertex).subrange(0, 3) =~= seq![
        vertex.coords.x,
        vertex.coords.y,
        vertex.coords.z,
    ]);
    assert(vertex_scalars(vertex).subrange(3, 7) =~= seq![
        vertex.color.red,
        vertex.color.green,
        vertex.color.blue,
        vertex.color.alpha,
    ]);
    assert(vertex_scalars(vertex).subrange(7, 9) =~= seq![
        vertex.texcoords.x,
        vertex.texcoords.y,
    ]);
}

/// The four corners of an axis-aligned rectangle, counter-clockwise from its origin.
#[derive(Clone, Copy, Debug, PartialEq)]
pub struct Quad<S> {
    pub v0: Vertex<S>,
    pub v1: Vertex<S>,
    pub v2: Vertex<S>,
    pub v3: Vertex<S>,
}

/// The quad that `coords` expands to: corners at `(x, y)`, `(x+w, y)`,
/// `(x+w, y+h)` and `(x, y+h)`, each with the matching corner of
/// `texture_coords`, all at depth `z` and of one color.
pub open spec fn quad_of<S: Scalar>(
    coords: Rectangle<S>,
    z: S,
    color: Color<S>,
    texture_coords: Rectangle<S>,
) -> Quad<S> {
    let x0 = coords.x;
    let y0 = coords.y;
    let x1 = coords.x.sum(coords.w);
    let y1 = coords.y.sum(coords.h);
    let u0 = texture_coords.x;
    let v0 = texture_coords.y;
    let u1 = texture_coords.x.sum(texture_coords.w);
    let v1 = texture_coords.y.sum(texture_coords.h);
    Quad {
        v0: vertex_at(x0, y0, z, color, u0, v0),
        v1: vertex_at(x1, y0, z, color, u1, v0),
        v2: vertex_at(x1, y1, z, color, u1, v1),
        v3: vertex_at(x0, y1, z, color, u0, v1),
    }
}

/// The order in which the corners of a quad are drawn as two triangles.
pub open spec fn quad_indices() -> Seq<u32> {
    seq![3, 2, 0, 2, 1, 0]
}

impl<S: Scalar> Quad<S> {
    /// The quad of `coords` at depth zero.
    pub fn new(coords: Rectangle<S>, color: Color<S>, texture_coords: Rectangle<S>) -> (quad: Self)
        ensures
            quad == quad_of(coords, S::origin(), color, texture_coords),
    {
        let x0 = coords.x;
        let y0 = coords.y;
        let x1 = x0.plus(coords.w);
        let y1 = y0.plus(coords.h);
        let z = S::zero();
        let u0 = texture_coords.x;
        let v0 = texture_coords.y;
        let u1 = u0.plus(texture_coords.w);
        let v1 = v0.plus(texture_coords.h);
        Quad {
            v0: Vertex::new(x0, y0, z, color, u0, v0),
            v1: Vertex::new(x1, y0, z, color, u1, v0),
            v2: Vertex::new(x1, y1, z, color, u1, v1),
            v3: Vertex::new(x0, y1, z, color, u0, v1),
        }
    }

    pub fn zero() -> (quad: Self)
        ensures
            quad.v1 == quad.v0,
            quad.v2 == quad.v0,
            quad.v3 == quad.v0,
            quad.v0 == zero_vertex::<S>(),
    {
        Quad { v0: Vertex::zero(), v1: Vertex::zero(), v2: Vertex::zero(), v3: Vertex::zero() }
    }

    /// The white unit square at the origin, textured with the whole texture.
    pub fn one() -> (quad: Self)
        ensures
            ({
                let o = S::origin();
                let i = S::unit();
                let white = Color { red: i, green: i, blue: i, alpha: i };
                quad == (Quad {
                    v0: vertex_at(o, o, o, white, o, o),
                    v1: vertex_at(i, o, o, white, i, o),
                    v2: vertex_at(i, i, o, white, i, i),
                    v3: vertex_at(o, i, o, white, o, i),
                })
            }),
    {
        let o = S::zero();
        let i = S::one();
        Quad {
            v0: Vertex::new(o, o, o, Color::one(), o, o),
            v1: Vertex::new(i, o, o, Color::one(), i, o),
            v2: Vertex::new(i, i, o, Color::one(), i, i),
            v3: Vertex::new(o, i, o, Color::one(), o, i),
        }
    }

    /// The index of the corner drawn at place `k` of the two triangles.
    pub fn index(k: usize) -> (corner: u32)
        requires
            k < 6,
        ensures
            corner == quad_indices()[k as int],
    {
        if k == 0 {
            3
        } else if k == 1 || k == 3 {
            2
        } else if k == 4 {
            1
        } else {
            0
        }
    }

    pub fn to_vector(self) -> (vertices: Vec<Vertex<S>>)
        ensures
            vertices@ == seq![self.v0, self.v1, self.v2, self.v3],
    {
        let vertices = vec![self.v0, self.v1, self.v2, self.v3];
        assert(vertices@ =~= seq![self.v0, self.v1, self.v2, self.v3]);
        vertices
    }
}

} // verus!
