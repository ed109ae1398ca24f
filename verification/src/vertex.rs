//! Vertex attribute values and the accessors that vertex-like types expose.

use vstd::prelude::*;

verus! {

/// A two-component vector, used for texture coordinates.
#[derive(Clone, Copy, Debug, PartialEq)]
pub struct Vec2<S> {
    pub x: S,
    pub y: S,
}

/// A three-component vector, used for positions and normals.
#[derive(Clone, Copy, Debug, PartialEq)]
pub struct Vec3<S> {
    pub x: S,
    pub y: S,
    pub z: S,
}

impl<S> Vec2<S> {
    pub fn new(x: S, y: S) -> (v: Self)
        ensures
            v == (Vec2 { x, y }),
    {
        Vec2 { x, y }
    }
}

impl<S> Vec3<S> {
    pub fn new(x: S, y: S, z: S) -> (v: Self)
        ensures
            v == (Vec3 { x, y, z }),
    {
        Vec3 { x, y, z }
    }
}

/// Implemented by types that have a position in space.
pub trait Position<S> {
    spec fn position_spec(&self) -> Vec3<S>;

    fn position(&self) -> (p: Vec3<S>)
        ensures
            p == self.position_spec(),
    ;
}

/// Implemented by types that have a surface normal.
pub trait Normal<S> {
    spec fn normal_spec(&self) -> Vec3<S>;

    fn normal(&self) -> (n: Vec3<S>)
        ensures
            n == self.normal_spec(),
    ;
}

/// Implemented by types that have texture coordinates.
pub trait Texcoords<S> {
    spec fn texcoords_spec(&self) -> Vec2<S>;

    fn texcoords(&self) -> (t: Vec2<S>)
        ensures
            t == self.texcoords_spec(),
    ;
}

/// A mesh vertex: position, normal and texture coordinates.
#[derive(Clone, Copy, Debug, PartialEq)]
pub struct Vertex<S> {
    pub position: Vec3<S>,
    pub normal: Vec3<S>,
    pub texcoords: Vec2<S>,
}

impl<S: Copy> Position<S> for Vertex<S> {
    open spec fn position_spec(&self) -> Vec3<S> {
        self.position
    }

    fn position(&self) -> (p: Vec3<S>) {
        self.position
    }
}

impl<S: Copy> Normal<S> for Vertex<S> {
    open spec fn normal_spec(&self) -> Vec3<S> {
        self.normal
    }

    fn normal(&self) -> (n: Vec3<S>) {
        self.normal
    }
}

impl<S: Copy> Texcoords<S> for Vertex<S> {
    open spec fn texcoords_spec(&self) -> Vec2<S> {
        self.texcoords
    }

    fn texcoords(&self) -> (t: Vec2<S>) {
        self.texcoords
    }
}

/// The vertex that carries the three attributes of a vertex-like value.
pub open spec fn vertex_of<S, V: Position<S> + Normal<S> + Texcoords<S>>(v: V) -> Vertex<S> {
    Vertex {
        position: v.position_spec(),
        normal: v.normal_spec(),
        texcoords: v.texcoords_spec(),
    }
}

} // verus!
