//! Fixed-layout records handed to the GPU, and their vertex-attribute layout.
use vstd::prelude::*;

verus! {

/// Three single-precision floats, each held as its bit pattern.
#[derive(Clone, Copy, Debug, PartialEq, Eq, Structural)]
pub struct Vec3Bits {
    pub x: u32,
    pub y: u32,
    pub z: u32,
}

/// Four single-precision floats, each held as its bit pattern.
#[derive(Clone, Copy, Debug, PartialEq, Eq, Structural)]
pub struct Vec4Bits {
    pub x: u32,
    pub y: u32,
    pub z: u32,
    pub w: u32,
}

/// A 4x4 single-precision matrix, column by column, held as bit patterns.
#[derive(Clone, Copy, Debug, PartialEq, Eq, Structural)]
pub struct Mat4Bits {
    pub x_axis: Vec4Bits,
    pub y_axis: Vec4Bits,
    pub z_axis: Vec4Bits,
    pub w_axis: Vec4Bits,
}

/// The scalar format of one vertex attribute.
#[derive(Clone, Copy, Debug, PartialEq, Eq, Structural)]
pub enum VertexFormat {
    Float32,
    Uint32,
    Float32x3,
    Float32x4,
}

/// Size in bytes of one attribute of the given format.
pub open spec fn format_size(f: VertexFormat) -> nat {
    match f {
        VertexFormat::Float32 => 4,
        VertexFormat::Uint32 => 4,
        VertexFormat::Float32x3 => 12,
        VertexFormat::Float32x4 => 16,
    }
}

impl VertexFormat {
    /// Size in bytes of one attribute of this format.
    pub fn size(&self) -> (r: u64)
        ensures
            r == format_size(*self),
    {
        match self {
            VertexFormat::Float32 => 4,
            VertexFormat::Uint32 => 4,
            VertexFormat::Float32x3 => 12,
            VertexFormat::Float32x4 => 16,
        }
    }
}

/// One attribute of a vertex buffer: where it starts in the record, its
/// format, and the shader slot that reads it.
#[derive(Clone, Copy, Debug, PartialEq, Eq, Structural)]
pub struct VertexAttribute {
    pub format: VertexFormat,
    pub offset: u64,
    pub shader_location: u32,
}

/// Total size in bytes of attributes of the given formats, packed back to back.
pub open spec fn formats_size(fs: Seq<VertexFormat>) -> nat
    decreases fs.len(),
{
    if fs.len() == 0 {
        0
    } else {
        formats_size(fs.drop_last()) + format_size(fs.last())
    }
}

/// The attribute at index `i` when the formats are packed back to back, each
/// read by the shader slot of its own index.
pub open spec fn packed_attribute(fs: Seq<VertexFormat>, i: int) -> VertexAttribute {
    VertexAttribute {
        format: fs[i],
        offset: formats_size(fs.take(i)) as u64,
        shader_location: i as u32,
    }
}

/// The layout of attributes of the given formats, packed back to back.
pub open spec fn packed_layout(fs: Seq<VertexFormat>) -> Seq<VertexAttribute> {
    Seq::new(fs.len(), |i: int| packed_attribute(fs, i))
}

/// The number of bytes that a layout covers: the end of its last attribute.
pub open spec fn layout_span(attrs: Seq<VertexAttribute>) -> nat {
    if attrs.len() == 0 {
        0
    } else {
        (attrs.last().offset + format_size(attrs.last().format)) as nat
    }
}

proof fn lemma_formats_size_bound(fs: Seq<VertexFormat>)
    ensures
        formats_size(fs) <= 16 * fs.len(),
    decreases fs.len(),
{
    if fs.len() > 0 {
        lemma_formats_size_bound(fs.drop_last());
    }
}

proof fn lemma_formats_size_step(fs: Seq<VertexFormat>, i: int)
    requires
        0 <= i < fs.len(),
    ensures
        formats_size(fs.take(i + 1)) == formats_size(fs.take(i)) + format_size(fs[i]),
{
    assert(fs.take(i + 1).drop_last() =~= fs.take(i));
}

/// Lays out attributes of the given formats back to back, starting at offset
/// zero, the attribute at index `i` read by shader slot `i`.
pub fn packed_attributes(formats: &Vec<VertexFormat>) -> (r: Vec<VertexAttribute>)
    requires
        formats@.len() <= u32::MAX,
    ensures
        r@ == packed_layout(formats@),
{
    let mut r: Vec<VertexAttribute> = Vec::new();
    let mut offset: u64 = 0;
    let mut i: usize = 0;
    while i < formats.len()
        invariant
            i <= formats@.len() <= u32::MAX,
            offset == formats_size(formats@.take(i as int)),
            r@.len() == i,
            forall|j: int| 0 <= j < i ==> r@[j] == packed_attribute(formats@, j),
        decreases formats@.len() - i,
    {
        proof {
            lemma_formats_size_step(formats@, i as int);
            lemma_formats_size_bound(formats@.take(i as int + 1));
        }
        let f = formats[i];
        r.push(VertexAttribute { format: f, offset, shader_location: i as u32 });
        offset = offset + f.size();
        i = i + 1;
    }
    assert(r@ =~= packed_layout(formats@));
    r
}

} // verus!
