use vstd::prelude::*;

use crate::error::RenderError;

verus! {

/// Shader stage a binding is visible to.
#[derive(Clone, Copy, Debug, PartialEq, Eq, Structural)]
pub enum ShaderStage {
    Vertex,
    Fragment,
}

/// Kind of resource a binding slot holds.
#[derive(Clone, Copy, Debug, PartialEq, Eq, Structural)]
pub enum BindingKind {
    /// A filterable 2D float texture, not multisampled.
    Texture2d,
    /// A filtering sampler.
    Sampler,
    /// A uniform buffer without dynamic offset.
    UniformBuffer,
}

/// One entry of a bind-group layout.
#[derive(Clone, Copy, Debug, PartialEq, Eq, Structural)]
pub struct LayoutEntry {
    pub binding: u32,
    pub visibility: ShaderStage,
    pub kind: BindingKind,
}

/// Group 0: the diffuse texture and its sampler, read by the fragment stage.
pub open spec fn spec_texture_group() -> Seq<LayoutEntry> {
    seq![
        LayoutEntry { binding: 0, visibility: ShaderStage::Fragment, kind: BindingKind::Texture2d },
        LayoutEntry { binding: 1, visibility: ShaderStage::Fragment, kind: BindingKind::Sampler },
    ]
}

/// Group 1: the camera uniform, read by the vertex stage.
pub open spec fn spec_camera_group() -> Seq<LayoutEntry> {
    seq![
        LayoutEntry {
            binding: 0,
            visibility: ShaderStage::Vertex,
            kind: BindingKind::UniformBuffer,
        },
    ]
}

/// Slot of the texture group in the pipeline layout.
pub const TEXTURE_GROUP: u32 = 0;

/// Slot of the camera group in the pipeline layout.
pub const CAMERA_GROUP: u32 = 1;

/// Layout of the texture group.
pub fn texture_group_layout() -> (r: Vec<LayoutEntry>)
    ensures
        r@ == spec_texture_group(),
{
    let r = vec![
        LayoutEntry { binding: 0, visibility: ShaderStage::Fragment, kind: BindingKind::Texture2d },
        LayoutEntry { binding: 1, visibility: ShaderStage::Fragment, kind: BindingKind::Sampler },
    ];
    assert(r@ =~= spec_texture_group());
    r
}

/// Layout of the camera group.
pub fn camera_group_layout() -> (r: Vec<LayoutEntry>)
    ensures
        r@ == spec_camera_group(),
{
    let r = vec![
        LayoutEntry {
            binding: 0,
            visibility: ShaderStage::Vertex,
            kind: BindingKind::UniformBuffer,
        },
    ];
    assert(r@ =~= spec_camera_group());
    r
}

/// The bind groups the pipeline declares, by slot: texture group, then
/// camera group.
pub fn pipeline_group_layouts() -> (r: Vec<Vec<LayoutEntry>>)
    ensures
        r@.len() == 2,
        r@[TEXTURE_GROUP as int]@ == spec_texture_group(),
        r@[CAMERA_GROUP as int]@ == spec_camera_group(),
{
    let mut r: Vec<Vec<LayoutEntry>> = Vec::new();
    r.push(texture_group_layout());
    r.push(camera_group_layout());
    r
}

/// The resources of a bind group, entry by entry, are of the kinds its
/// layout declares.
pub open spec fn group_matches(layout: Seq<LayoutEntry>, resources: Seq<BindingKind>) -> bool {
    &&& layout.len() == resources.len()
    &&& forall|i: int| 0 <= i < layout.len() ==> (#[trigger] layout[i]).kind == resources[i]
}

/// Checks a bind group's resources against the layout it is created from.
pub fn check_bind_group(layout: &Vec<LayoutEntry>, resources: &Vec<BindingKind>) -> (r: Result<
    (),
    RenderError,
>)
    ensures
        r is Ok <==> group_matches(layout@, resources@),
        r is Err ==> r == Err::<(), RenderError>(RenderError::PipelineLayoutMismatch),
{
    if layout.len() != resources.len() {
        return Err(RenderError::PipelineLayoutMismatch);
    }
    let mut i: usize = 0;
    while i < layout.len()
        invariant
            i <= layout@.len() == resources@.len(),
            forall|j: int| 0 <= j < i ==> (#[trigger] layout@[j]).kind == resources@[j],
        decreases layout@.len() - i,
    {
        if layout[i].kind != resources[i] {
            return Err(RenderError::PipelineLayoutMismatch);
        }
        i = i + 1;
    }
    Ok(())
}

} // verus!
