use vstd::prelude::*;

use crate::fixed::{Fx, Vec2Fx, Vec3Fx, FX_ONE};

verus! {

/// The format of one vertex attribute, by component count (32-bit floats on
/// the GPU side).
#[derive(Clone, Copy, Debug, PartialEq, Eq, Structural)]
pub enum AttributeFormat {
    Float32x2,
    Float32x3,
    Float32x4,
}

/// How a vertex buffer advances: once per vertex, or once per instance.
#[derive(Clone, Copy, Debug, PartialEq, Eq, Structural)]
pub enum StepMode {
    Vertex,
    Instance,
}

/// One attribute of a vertex buffer layout: its byte offset within the
/// stride, the shader input slot it feeds, and its format.
#[derive(Clone, Copy, Debug, PartialEq, Eq, Structural)]
pub struct AttributeDesc {
    pub offset: u64,
    pub shader_location: u32,
    pub format: AttributeFormat,
}

/// A vertex buffer layout: the byte stride between elements, the step
/// mode, and the attributes each element carries.
pub struct LayoutDesc {
    pub array_stride: u64,
    pub step_mode: StepMode,
    pub attributes: Vec<AttributeDesc>,
}

/// One mesh vertex: a position and a two-component color/uv attribute.
#[derive(Clone, Copy, Debug, PartialEq, Eq, Structural)]
pub struct Vertex {
    pub position: Vec3Fx,
    pub color: Vec2Fx,
}

/// The vertex with the given whole-unit position and color components.
pub open spec fn spec_vertex(px: int, py: int, pz: int, cu: int, cv: int) -> Vertex {
    Vertex {
        position: Vec3Fx {
            x: Fx { raw: (px * FX_ONE) as i64 },
            y: Fx { raw: (py * FX_ONE) as i64 },
            z: Fx { raw: (pz * FX_ONE) as i64 },
        },
        color: Vec2Fx { x: Fx { raw: (cu * FX_ONE) as i64 }, y: Fx { raw: (cv * FX_ONE) as i64 } },
    }
}

/// Builds a vertex from whole-unit components.
fn vert(px: i32, py: i32, pz: i32, cu: i32, cv: i32) -> (r: Vertex)
    ensures
        r == spec_vertex(px as int, py as int, pz as int, cu as int, cv as int),
{
    Vertex {
        position: Vec3Fx {
            x: Fx { raw: (px as i64) * FX_ONE },
            y: Fx { raw: (py as i64) * FX_ONE },
            z: Fx { raw: (pz as i64) * FX_ONE },
        },
        color: Vec2Fx {
            x: Fx { raw: (cu as i64) * FX_ONE },
            y: Fx { raw: (cv as i64) * FX_ONE },
        },
    }
}

/// The cube mesh: four vertices for each of the six faces, duplicated so
/// that every face carries its own color/uv corners.
pub open spec fn spec_vertices() -> Seq<Vertex> {
    seq![
        spec_vertex(-1, -1, -1, 0, 1),
        spec_vertex(1, -1, -1, 1, 1),
        spec_vertex(-1, 1, -1, 0, 0),
        spec_vertex(1, 1, -1, 1, 0),
        spec_vertex(-1, -1, 1, 1, 1),
        spec_vertex(1, -1, 1, 0, 1),
        spec_vertex(-1, 1, 1, 1, 0),
        spec_vertex(1, 1, 1, 0, 0),
        spec_vertex(-1, -1, -1, 1, 1),
        spec_vertex(-1, 1, -1, 1, 0),
        spec_vertex(-1, -1, 1, 0, 1),
        spec_vertex(-1, 1, 1, 0, 0),
        spec_vertex(1, -1, -1, 1, 1),
        spec_vertex(1, 1, -1, 1, 0),
        spec_vertex(1, -1, 1, 0, 1),
        spec_vertex(1, 1, 1, 0, 0),
        spec_vertex(-1, -1, -1, 0, 0),
        spec_vertex(1, -1, -1, 1, 0),
        spec_vertex(-1, -1, 1, 0, 1),
        spec_vertex(1, -1, 1, 1, 1),
        spec_vertex(-1, 1, -1, 0, 1),
        spec_vertex(1, 1, -1, 1, 1),
        spec_vertex(-1, 1, 1, 0, 0),
        spec_vertex(1, 1, 1, 1, 0),
    ]
}

/// The cube's index list: two counter-clockwise triangles per face.
pub open spec fn spec_indices() -> Seq<u16> {
    seq![
        0u16, 2, 1, 2, 3, 1, 4, 5, 7, 4, 7, 6, 8, 10, 9, 10, 11, 9, 12, 13, 15, 12, 15, 14, 16,
        17, 18, 18, 17, 19, 20, 23, 21, 20, 22, 23,
    ]
}

/// The cube mesh table, constant for the process lifetime.
pub fn vertices() -> (v: Vec<Vertex>)
    ensures
        v@ == spec_vertices(),
        v@.len() == 24,
{
    let v = vec![
        vert(-1, -1, -1, 0, 1),
        vert(1, -1, -1, 1, 1),
        vert(-1, 1, -1, 0, 0),
        vert(1, 1, -1, 1, 0),
        vert(-1, -1, 1, 1, 1),
        vert(1, -1, 1, 0, 1),
        vert(-1, 1, 1, 1, 0),
        vert(1, 1, 1, 0, 0),
        vert(-1, -1, -1, 1, 1),
        vert(-1, 1, -1, 1, 0),
        vert(-1, -1, 1, 0, 1),
        vert(-1, 1, 1, 0, 0),
        vert(1, -1, -1, 1, 1),
        vert(1, 1, -1, 1, 0),
        vert(1, -1, 1, 0, 1),
        vert(1, 1, 1, 0, 0),
        vert(-1, -1, -1, 0, 0),
        vert(1, -1, -1, 1, 0),
        vert(-1, -1, 1, 0, 1),
        vert(1, -1, 1, 1, 1),
        vert(-1, 1, -1, 0, 1),
        vert(1, 1, -1, 1, 1),
        vert(-1, 1, 1, 0, 0),
        vert(1, 1, 1, 1, 0),
    ];
    proof {
        assert(v@ =~= spec_vertices());
    }
    v
}

/// The cube index table, constant for the process lifetime.
pub fn indices() -> (v: Vec<u16>)
    ensures
        v@ == spec_indices(),
        v@.len() == 36,
{
    let v = vec![
        0u16, 2, 1, 2, 3, 1, 4, 5, 7, 4, 7, 6, 8, 10, 9, 10, 11, 9, 12, 13, 15, 12, 15, 14, 16,
        17, 18, 18, 17, 19, 20, 23, 21, 20, 22, 23,
    ];
    proof {
        assert(v@ =~= spec_indices());
    }
    v
}

impl Vertex {
    /// The buffer layout a mesh vertex occupies on the GPU: a 20-byte
    /// stride (three 32-bit floats of position, two of color), stepped per
    /// vertex, feeding shader input slots 0 and 1.
    pub fn desc() -> (r: LayoutDesc)
        ensures
            r.array_stride == 20,
            r.step_mode == StepMode::Vertex,
            r.attributes@ == seq![
                AttributeDesc { offset: 0, shader_location: 0, format: AttributeFormat::Float32x3 },
                AttributeDesc {
                    offset: 12,
                    shader_location: 1,
                    format: AttributeFormat::Float32x2,
                },
            ],
    {
        let attributes = vec![
            AttributeDesc { offset: 0, shader_location: 0, format: AttributeFormat::Float32x3 },
            AttributeDesc { offset: 12, shader_location: 1, format: AttributeFormat::Float32x2 },
        ];
        proof {
            assert(attributes@ =~= seq![
                AttributeDesc { offset: 0, shader_location: 0, format: AttributeFormat::Float32x3 },
                AttributeDesc {
                    offset: 12,
                    shader_location: 1,
                    format: AttributeFormat::Float32x2,
                },
            ]);
        }
        LayoutDesc { array_stride: 20, step_mode: StepMode::Vertex, attributes }
    }
}

/// Every entry of the index table names a vertex of the 24-entry mesh
/// table, so an indexed draw over the cube geometry stays inside the
/// shared vertex buffer.
pub proof fn lemma_indices_reference_vertices(i: int)
    requires
        0 <= i < spec_indices().len(),
    ensures
        spec_indices()[i] < 24,
{
    if i == 0 {
        assert(spec_indices()[0] == 0);
    } else if i == 1 {
        assert(spec_indices()[1] == 2);
    } else if i == 2 {
        assert(spec_indices()[2] == 1);
    } else if i == 3 {
        assert(spec_indices()[3] == 2);
    } else if i == 4 {
        assert(spec_indices()[4] == 3);
    } else if i == 5 {
        assert(spec_indices()[5] == 1);
    } else if i == 6 {
        assert(spec_indices()[6] == 4);
    } else if i == 7 {
        assert(spec_indices()[7] == 5);
    } else if i == 8 {
        assert(spec_indices()[8] == 7);
    } else if i == 9 {
        assert(spec_indices()[9] == 4);
    } else if i == 10 {
        assert(spec_indices()[10] == 7);
    } else if i == 11 {
        assert(spec_indices()[11] == 6);
    } else if i == 12 {
        assert(spec_indices()[12] == 8);
    } else if i == 13 {
        assert(spec_indices()[13] == 10);
    } else if i == 14 {
        assert(spec_indices()[14] == 9);
    } else if i == 15 {
        assert(spec_indices()[15] == 10);
    } else if i == 16 {
        assert(spec_indices()[16] == 11);
    } else if i == 17 {
        assert(spec_indices()[17] == 9);
    } else if i == 18 {
        assert(spec_indices()[18] == 12);
    } else if i == 19 {
        assert(spec_indices()[19] == 13);
    } else if i == 20 {
        assert(spec_indices()[20] == 15);
    } else if i == 21 {
        assert(spec_indices()[21] == 12);
    } else if i == 22 {
        assert(spec_indices()[22] == 15);
    } else if i == 23 {
        assert(spec_indices()[23] == 14);
    } else if i == 24 {
        assert(spec_indices()[24] == 16);
    } else if i == 25 {
        assert(spec_indices()[25] == 17);
    } else if i == 26 {
        assert(spec_indices()[26] == 18);
    } else if i == 27 {
        assert(spec_indices()[27] == 18);
    } else if i == 28 {
        assert(spec_indices()[28] == 17);
    } else if i == 29 {
        assert(spec_indices()[29] == 19);
    } else if i == 30 {
        assert(spec_indices()[30] == 20);
    } else if i == 31 {
        assert(spec_indices()[31] == 23);
    } else if i == 32 {
        assert(spec_indices()[32] == 21);
    } else if i == 33 {
        assert(spec_indices()[33] == 20);
    } else if i == 34 {
        assert(spec_indices()[34] == 22);
    } else if i == 35 {
        assert(spec_indices()[35] == 23);
    }
}

} // verus!
