//! Vertex attribute packing: attributes lie back to back in declaration
//! order, each as wide as its type, with no padding between them.

use vstd::prelude::*;
use crate::render::Render;

verus! {

/// `wgpu::VertexFormat`: the format of one vertex attribute, with the
/// variants the backend defines.
#[verifier::external_type_specification]
pub struct ExVertexFormat(wgpu::VertexFormat);

/// `wgpu::VertexAttribute`: one entry of a vertex buffer layout, with the
/// three fields the backend defines: format, byte offset, shader location.
#[verifier::external_type_specification]
pub struct ExVertexAttribute(wgpu::VertexAttribute);

/// The type of one vertex attribute.
#[derive(Clone, Copy, Debug, PartialEq, Eq, Structural)]
pub enum ShaderAttributeType {
    /// One 32-bit float.
    Float,
    /// Two 32-bit floats.
    Vec2,
    /// Three 32-bit floats.
    Vec3,
    /// Four 32-bit floats.
    Vec4,
}

impl ShaderAttributeType {
    /// Width of the attribute in bytes.
    pub open spec fn byte_size(self) -> nat {
        match self {
            ShaderAttributeType::Float => 4,
            ShaderAttributeType::Vec2 => 8,
            ShaderAttributeType::Vec3 => 12,
            ShaderAttributeType::Vec4 => 16,
        }
    }

    /// The GPU vertex format that carries the attribute.
    pub open spec fn format(self) -> wgpu::VertexFormat {
        match self {
            ShaderAttributeType::Float => wgpu::VertexFormat::Float32,
            ShaderAttributeType::Vec2 => wgpu::VertexFormat::Float32x2,
            ShaderAttributeType::Vec3 => wgpu::VertexFormat::Float32x3,
            ShaderAttributeType::Vec4 => wgpu::VertexFormat::Float32x4,
        }
    }

    pub fn to_wgpu(&self) -> (format: wgpu::VertexFormat)
        ensures
            format == self.format(),
    {
        match self {
            ShaderAttributeType::Float => wgpu::VertexFormat::Float32,
            ShaderAttributeType::Vec2 => wgpu::VertexFormat::Float32x2,
            ShaderAttributeType::Vec3 => wgpu::VertexFormat::Float32x3,
            ShaderAttributeType::Vec4 => wgpu::VertexFormat::Float32x4,
        }
    }

    pub fn size(&self) -> (bytes: usize)
        ensures
            bytes == self.byte_size(),
    {
        match self {
            ShaderAttributeType::Float => 4,
            ShaderAttributeType::Vec2 => 8,
            ShaderAttributeType::Vec3 => 12,
            ShaderAttributeType::Vec4 => 16,
        }
    }
}

/// One vertex attribute: its type and the shader location it feeds.
#[derive(Clone, Copy, Debug)]
pub struct ShaderAttribute {
    kind: ShaderAttributeType,
    location: usize,
}

impl ShaderAttribute {
    pub closed spec fn kind(self) -> ShaderAttributeType {
        self.kind
    }

    pub closed spec fn location(self) -> usize {
        self.location
    }

    pub fn new(kind: ShaderAttributeType, location: usize) -> (attr: ShaderAttribute)
        ensures
            attr.kind() == kind,
            attr.location() == location,
    {
        ShaderAttribute { kind, location }
    }
}

/// Total width in bytes of a run of attributes laid back to back.
pub open spec fn packed_size(attrs: Seq<ShaderAttribute>) -> nat
    decreases attrs.len(),
{
    if attrs.len() == 0 {
        0
    } else {
        packed_size(attrs.drop_last()) + attrs.last().kind().byte_size()
    }
}

/// The entry that a tightly packed layout gives attribute `i` of `attrs`.
pub open spec fn packed_entry(attrs: Seq<ShaderAttribute>, i: int) -> wgpu::VertexAttribute {
    wgpu::VertexAttribute {
        format: attrs[i].kind().format(),
        offset: packed_size(attrs.take(i)) as u64,
        shader_location: attrs[i].location() as u32,
    }
}

/// The whole attribute table of a tightly packed layout.
pub open spec fn packed_table(attrs: Seq<ShaderAttribute>) -> Seq<wgpu::VertexAttribute> {
    Seq::new(attrs.len(), |i: int| packed_entry(attrs, i))
}

/// Taking one more attribute into a prefix adds exactly that attribute's
/// width to the prefix's packed size.
pub proof fn lemma_packed_size_step(attrs: Seq<ShaderAttribute>, i: int)
    requires
        0 <= i < attrs.len(),
    ensures
        packed_size(attrs.take(i + 1)) == packed_size(attrs.take(i)) + attrs[i].kind().byte_size(),
{
    assert(attrs.take(i + 1).drop_last() =~= attrs.take(i));
}

/// No attribute is wider than sixteen bytes, so a run of `n` attributes
/// packs into at most `16 * n` bytes.
pub proof fn lemma_packed_size_bound(attrs: Seq<ShaderAttribute>)
    ensures
        packed_size(attrs) <= 16 * attrs.len(),
    decreases attrs.len(),
{
    if attrs.len() > 0 {
        lemma_packed_size_bound(attrs.drop_last());
    }
}

/// The first attribute starts at byte zero, every later one starts where
/// its predecessor ends, and the stride is where the last one ends.
pub proof fn lemma_offsets_are_tight(attrs: Seq<ShaderAttribute>, i: int)
    requires
        0 <= i < attrs.len(),
    ensures
        packed_size(attrs.take(0)) == 0,
        packed_size(attrs.take(i)) + attrs[i].kind().byte_size() <= packed_size(attrs),
        i + 1 < attrs.len() ==> packed_size(attrs.take(i + 1)) == packed_size(attrs.take(i))
            + attrs[i].kind().byte_size(),
        i + 1 == attrs.len() ==> packed_size(attrs) == packed_size(attrs.take(i))
            + attrs[i].kind().byte_size(),
    decreases attrs.len() - i,
{
    lemma_packed_size_step(attrs, i);
    if i + 1 == attrs.len() {
        assert(attrs.take(i + 1) =~= attrs);
    } else {
        lemma_offsets_are_tight(attrs, i + 1);
    }
}

/// An ordered list of `T` vertex attributes, tightly packed.
pub struct ShaderLayout<const T: usize> {
    attrs: [ShaderAttribute; T],
}

impl<const T: usize> View for ShaderLayout<T> {
    type V = Seq<ShaderAttribute>;

    closed spec fn view(&self) -> Seq<ShaderAttribute> {
        self.attrs@
    }
}

impl<const T: usize> ShaderLayout<T> {
    #[verifier::type_invariant]
    spec fn fits(self) -> bool {
        16 * T <= usize::MAX
    }

    /// Bytes from one vertex to the next.
    pub open spec fn stride(self) -> nat {
        packed_size(self@)
    }

    /// Byte offset of attribute `i` within a vertex.
    pub open spec fn offset(self, i: int) -> nat {
        packed_size(self@.take(i))
    }

    /// Lays out `attrs`, in the order given, for pipelines of `render`. A
    /// layout whose widest possible packing would not fit in `usize`
    /// cannot be built.
    #[allow(unused_variables)]
    pub fn new(render: &Render, attrs: [ShaderAttribute; T]) -> (layout: ShaderLayout<T>)
        requires
            16 * T <= usize::MAX,
        ensures
            layout@ == attrs@,
            layout@.len() == T,
    {
        ShaderLayout { attrs }
    }

    /// The stride of a vertex and the table of attribute entries a
    /// pipeline needs: entry `i` has the format and location of attribute
    /// `i` and starts where the attributes before it end.
    pub fn wgpu_attributes(&self) -> (out: (usize, [wgpu::VertexAttribute; T]))
        ensures
            out.0 == self.stride(),
            out.1@ == packed_table(self@),
            forall|i: int| 0 <= i < T ==> (#[trigger] out.1@[i]).offset == self.offset(i),
    {
        proof {
            use_type_invariant(self);
        }
        let blank = wgpu::VertexAttribute {
            format: wgpu::VertexFormat::Float32,
            offset: 0,
            shader_location: 0,
        };
        let mut table: [wgpu::VertexAttribute; T] = [blank; T];
        let mut offset: usize = 0;
        let mut i: usize = 0;
        while i < T
            invariant
                i <= T,
                16 * T <= usize::MAX,
                self.attrs@.len() == T,
                offset == packed_size(self.attrs@.take(i as int)),
                offset <= 16 * i,
                forall|j: int| 0 <= j < i ==> table@[j] == packed_entry(self.attrs@, j),
            decreases T - i,
        {
            let attr = &self.attrs[i];
            proof {
                lemma_packed_size_step(self.attrs@, i as int);
            }
            table[i] = wgpu::VertexAttribute {
                format: attr.kind.to_wgpu(),
                offset: offset as u64,
                shader_location: #[verifier::truncate] (attr.location as u32),
            };
            offset = offset + attr.kind.size();
            i += 1;
        }
        proof {
            assert(self.attrs@.take(T as int) =~= self.attrs@);
            assert(table@ =~= packed_table(self.attrs@));
            assert forall|j: int| 0 <= j < T implies (#[trigger] table@[j]).offset == self.offset(
                j,
            ) by {
                lemma_packed_size_bound(self.attrs@.take(j));
            }
        }
        (offset, table)
    }
}

} // verus!
