//! Layout of the 80-byte instance record shared by the render pipelines.
//!
//! Each instance is one quad: position, size, atlas UV rectangle, foreground
//! and background colors, the instance kind and the atlas page. The
//! attribute table maps these fields to shader locations; the pipelines are
//! built from it.

use vstd::prelude::*;

verus! {

/// Size in bytes of one instance record.
pub const INSTANCE_SIZE: usize = 80;

/// Instance buffer stride in bytes.
pub const INSTANCE_STRIDE: u64 = 80;

/// What an instance draws, as stored in its `kind` field.
#[derive(Debug, Clone, Copy, PartialEq, Eq, Structural)]
pub enum InstanceKind {
    /// Solid rectangle (backgrounds, decorations).
    Rect,
    /// Textured glyph from the atlas.
    Glyph,
    /// Cursor rectangle.
    Cursor,
}

impl InstanceKind {
    /// The value stored in the record's `kind` field.
    pub fn code(self) -> (c: u32)
        ensures
            c == match self {
                InstanceKind::Rect => 0u32,
                InstanceKind::Glyph => 1u32,
                InstanceKind::Cursor => 2u32,
            },
    {
        match self {
            InstanceKind::Rect => 0,
            InstanceKind::Glyph => 1,
            InstanceKind::Cursor => 2,
        }
    }
}

/// Formats of the instance attributes.
#[derive(Debug, Clone, Copy, PartialEq, Eq, Structural)]
pub enum VertexFormat {
    /// Two 32-bit floats.
    Float32x2,
    /// Four 32-bit floats.
    Float32x4,
    /// One 32-bit unsigned integer.
    Uint32,
}

/// Byte size of an attribute format.
pub open spec fn format_size(f: VertexFormat) -> u64 {
    match f {
        VertexFormat::Float32x2 => 8,
        VertexFormat::Float32x4 => 16,
        VertexFormat::Uint32 => 4,
    }
}

impl VertexFormat {
    /// Byte size of this format.
    pub fn size(&self) -> (n: u64)
        ensures
            n == format_size(*self),
    {
        match self {
            VertexFormat::Float32x2 => 8,
            VertexFormat::Float32x4 => 16,
            VertexFormat::Uint32 => 4,
        }
    }
}

/// One attribute of the instance record.
#[derive(Debug, Clone, Copy, PartialEq, Eq, Structural)]
pub struct VertexAttribute {
    pub format: VertexFormat,
    pub offset: u64,
    pub shader_location: u32,
}

/// The instance record's attributes: pos, size, uv, fg color, bg color,
/// kind and atlas page at locations 0 to 6.
pub open spec fn spec_instance_attrs() -> Seq<VertexAttribute> {
    seq![
        VertexAttribute { format: VertexFormat::Float32x2, offset: 0, shader_location: 0 },
        VertexAttribute { format: VertexFormat::Float32x2, offset: 8, shader_location: 1 },
        VertexAttribute { format: VertexFormat::Float32x4, offset: 16, shader_location: 2 },
        VertexAttribute { format: VertexFormat::Float32x4, offset: 32, shader_location: 3 },
        VertexAttribute { format: VertexFormat::Float32x4, offset: 48, shader_location: 4 },
        VertexAttribute { format: VertexFormat::Uint32, offset: 64, shader_location: 5 },
        VertexAttribute { format: VertexFormat::Uint32, offset: 68, shader_location: 6 },
    ]
}

/// Vertex attributes for the 80-byte instance record.
///
/// Maps to the `InstanceInput` struct of the shaders.
pub fn instance_attrs() -> (v: Vec<VertexAttribute>)
    ensures
        v@ == spec_instance_attrs(),
{
    let v = vec![
        VertexAttribute { format: VertexFormat::Float32x2, offset: 0, shader_location: 0 },
        VertexAttribute { format: VertexFormat::Float32x2, offset: 8, shader_location: 1 },
        VertexAttribute { format: VertexFormat::Float32x4, offset: 16, shader_location: 2 },
        VertexAttribute { format: VertexFormat::Float32x4, offset: 32, shader_location: 3 },
        VertexAttribute { format: VertexFormat::Float32x4, offset: 48, shader_location: 4 },
        VertexAttribute { format: VertexFormat::Uint32, offset: 64, shader_location: 5 },
        VertexAttribute { format: VertexFormat::Uint32, offset: 68, shader_location: 6 },
    ];
    proof {
        assert(v@ =~= spec_instance_attrs());
    }
    v
}

/// The attributes are laid out in order without overlapping, the `i`-th at
/// shader location `i`, and all of them fit within one record.
pub proof fn law_instance_layout()
    ensures
        INSTANCE_STRIDE == INSTANCE_SIZE,
        forall|i: int| 0 <= i < spec_instance_attrs().len() ==> (#[trigger] spec_instance_attrs()[i]).shader_location == i,
        forall|i: int|
            0 <= i < spec_instance_attrs().len() - 1 ==> #[trigger] spec_instance_attrs()[i].offset + format_size(
                spec_instance_attrs()[i].format,
            ) <= spec_instance_attrs()[i + 1].offset,
        forall|i: int|
            0 <= i < spec_instance_attrs().len() ==> #[trigger] spec_instance_attrs()[i].offset + format_size(
                spec_instance_attrs()[i].format,
            ) <= INSTANCE_STRIDE,
{
    let a = spec_instance_attrs();
    assert(a.len() == 7);
    assert forall|i: int| 0 <= i < a.len() implies (#[trigger] a[i]).shader_location == i by {
        if i == 0 {
        } else if i == 1 {
        } else if i == 2 {
        } else if i == 3 {
        } else if i == 4 {
        } else if i == 5 {
        } else {
        }
    }
}

} // verus!
