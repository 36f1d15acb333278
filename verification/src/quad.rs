//! The static screen-covering quad.
//!
//! A four-vertex triangle fan over the full viewport, with positions in
//! clip space and texture coordinates per corner; built once at startup
//! and immutable afterwards.

use vstd::prelude::*;
use crate::fixed::SCALE;

verus! {

/// The vertex attributes a shader consumes.
#[derive(Clone, Copy, Debug, Eq, Hash, PartialEq, Structural)]
pub enum VertexSemantics {
    Position,
    UV,
}

/// A clip-space position attribute.
#[derive(Clone, Copy, Debug, PartialEq, Eq, Structural)]
pub struct VertexPosition {
    pub x: i128,
    pub y: i128,
    pub z: i128,
}

/// A texture-coordinate attribute.
#[derive(Clone, Copy, Debug, PartialEq, Eq, Structural)]
pub struct VertexUV {
    pub u: i128,
    pub v: i128,
}

/// One vertex of the screen quad.
#[derive(Clone, Copy, Debug, PartialEq, Eq, Structural)]
pub struct Vertex {
    pub position: VertexPosition,
    pub uv: VertexUV,
}

/// Index type of a mesh.
pub type VertexIndex = u32;

/// One corner of the screen quad.
pub open spec fn quad_corner(x: int, y: int, u: int, v: int) -> Vertex {
    Vertex {
        position: VertexPosition { x: x as i128, y: y as i128, z: 0 },
        uv: VertexUV { u: u as i128, v: v as i128 },
    }
}

/// The four corners of the full-viewport quad as a triangle fan, counter
/// clockwise from the lower left, with texture coordinates flipped
/// vertically.
pub open spec fn screen_rect_spec() -> Seq<Vertex> {
    seq![
        quad_corner(-(SCALE as int), -(SCALE as int), 0, SCALE as int),
        quad_corner(SCALE as int, -(SCALE as int), SCALE as int, SCALE as int),
        quad_corner(SCALE as int, SCALE as int, SCALE as int, 0),
        quad_corner(-(SCALE as int), SCALE as int, 0, 0),
    ]
}

/// Build the screen-covering quad: exactly the four fan corners of
/// [`screen_rect_spec`].
pub fn get_screen_rect() -> (r: Vec<Vertex>)
    ensures
        r@ == screen_rect_spec(),
{
    let mut verts: Vec<Vertex> = Vec::new();
    verts.push(
        Vertex { position: VertexPosition { x: -SCALE, y: -SCALE, z: 0 }, uv: VertexUV { u: 0, v: SCALE } },
    );
    verts.push(
        Vertex { position: VertexPosition { x: SCALE, y: -SCALE, z: 0 }, uv: VertexUV { u: SCALE, v: SCALE } },
    );
    verts.push(
        Vertex { position: VertexPosition { x: SCALE, y: SCALE, z: 0 }, uv: VertexUV { u: SCALE, v: 0 } },
    );
    verts.push(
        Vertex { position: VertexPosition { x: -SCALE, y: SCALE, z: 0 }, uv: VertexUV { u: 0, v: 0 } },
    );
    proof {
        assert(verts@ =~= screen_rect_spec());
    }
    verts
}

} // verus!
