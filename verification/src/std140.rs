//! Vectors laid out as uniform blocks want them: padded to four scalars.

use vstd::prelude::*;
use crate::types::Scalar;

verus! {

/// Two scalars and two of padding.
#[allow(non_camel_case_types)]
#[derive(Clone, Copy, Debug, PartialEq)]
pub struct vec2<S> {
    pub x: S,
    pub y: S,
    pub _padding0: S,
    pub _padding1: S,
}

impl<S: Scalar> vec2<S> {
    pub fn new(x: S, y: S) -> (v: Self)
        ensures
            v == (vec2 { x, y, _padding0: S::origin(), _padding1: S::origin() }),
    {
        vec2 { x, y, _padding0: S::zero(), _padding1: S::zero() }
    }
}

/// Three scalars and one of padding.
#[allow(non_camel_case_types)]
#[derive(Clone, Copy, Debug, PartialEq)]
pub struct vec3<S> {
    pub x: S,
    pub y: S,
    pub z: S,
    pub _padding0: S,
}

impl<S: Scalar> vec3<S> {
    pub fn new(x: S, y: S, z: S) -> (v: Self)
        ensures
            v == (vec3 { x, y, z, _padding0: S::origin() }),
    {
        vec3 { x, y, z, _padding0: S::zero() }
    }
}

/// Four scalars.
#[allow(non_camel_case_types)]
#[derive(Clone, Copy, Debug, PartialEq)]
pub struct vec4<S> {
    pub x: S,
    pub y: S,
    pub z: S,
    pub w: S,
}

impl<S: Scalar> vec4<S> {
    pub fn new(x: S, y: S, z: S, w: S) -> (v: Self)
        ensures
            v == (vec4 { x, y, z, w }),
    {
        vec4 { x, y, z, w }
    }
}

} // verus!
