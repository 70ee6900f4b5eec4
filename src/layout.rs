use vstd::prelude::*;

verus! {

/// Format of one vertex attribute as the shader reads it.
#[derive(Clone, Copy, Debug, PartialEq, Eq, Structural)]
pub enum VertexFormat {
    Float32x2,
    Float32x3,
}

impl VertexFormat {
    pub open spec fn spec_size(self) -> nat {
        match self {
            VertexFormat::Float32x2 => 8,
            VertexFormat::Float32x3 => 12,
        }
    }

    /// Size in bytes of one attribute of this format.
    pub fn size(&self) -> (n: u64)
        ensures
            n == self.spec_size(),
    {
        match self {
            VertexFormat::Float32x2 => 8,
            VertexFormat::Float32x3 => 12,
        }
    }
}

/// One attribute: where in the vertex it starts and which shader location
/// receives it.
#[derive(Clone, Copy, Debug, PartialEq, Eq, Structural)]
pub struct VertexAttribute {
    pub format: VertexFormat,
    pub offset: u64,
    pub shader_location: u32,
}

/// How one vertex buffer, stepped once per vertex, is cut into attributes.
#[derive(Debug)]
pub struct VertexLayout {
    pub array_stride: u64,
    pub attributes: Vec<VertexAttribute>,
}

/// Bytes taken by the first `n` formats, laid end to end.
pub open spec fn packed_offset(formats: Seq<VertexFormat>, n: int) -> nat
    decreases n,
{
    if n <= 0 {
        0
    } else {
        packed_offset(formats, n - 1) + formats[n - 1].spec_size()
    }
}

/// `l` lays out `formats` in order at shader locations 0, 1, ..., tightly
/// packed, and one vertex is exactly as long as its attributes.
pub open spec fn is_packed_layout(l: VertexLayout, formats: Seq<VertexFormat>) -> bool {
    &&& l.attributes@.len() == formats.len()
    &&& l.array_stride == packed_offset(formats, formats.len() as int)
    &&& forall|i: int|
        0 <= i < formats.len() ==> {
            &&& (#[trigger] l.attributes@[i]).format == formats[i]
            &&& l.attributes@[i].offset == packed_offset(formats, i)
            &&& l.attributes@[i].shader_location == i
        }
}

proof fn lemma_packed_offset_bound(formats: Seq<VertexFormat>, n: int)
    requires
        0 <= n <= formats.len(),
    ensures
        packed_offset(formats, n) <= 12 * n,
    decreases n,
{
    if n > 0 {
        lemma_packed_offset_bound(formats, n - 1);
    }
}

/// Lays `formats` out one after another, at consecutive shader locations.
pub fn packed_layout(formats: &Vec<VertexFormat>) -> (l: VertexLayout)
    requires
        formats@.len() <= u32::MAX,
    ensures
        is_packed_layout(l, formats@),
{
    let mut attributes: Vec<VertexAttribute> = Vec::new();
    let mut offset: u64 = 0;
    let mut i: usize = 0;
    while i < formats.len()
        invariant
            i <= formats@.len() <= u32::MAX,
            offset == packed_offset(formats@, i as int),
            attributes@.len() == i,
            forall|j: int|
                0 <= j < i ==> {
                    &&& (#[trigger] attributes@[j]).format == formats@[j]
                    &&& attributes@[j].offset == packed_offset(formats@, j)
                    &&& attributes@[j].shader_location == j
                },
        decreases formats@.len() - i,
    {
        proof {
            lemma_packed_offset_bound(formats@, i as int + 1);
        }
        let format = formats[i];
        attributes.push(VertexAttribute { format, offset, shader_location: i as u32 });
        offset = offset + format.size();
        i = i + 1;
    }
    VertexLayout { array_stride: offset, attributes }
}

} // verus!
