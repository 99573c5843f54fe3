//! The resource bindings of the two pipelines: the plotting render pipeline
//! and the radius compute pipeline, as plain tables, with the proof that each
//! bind group fits its layout.
use vstd::prelude::*;

verus! {

/// The shader stages that see a binding.
#[derive(Clone, Copy, Debug, PartialEq, Eq, Structural)]
pub enum Visibility {
    Vertex,
    VertexFragment,
    Compute,
}

/// What a binding slot of a layout accepts.
#[derive(Clone, Copy, Debug, PartialEq, Eq, Structural)]
pub enum BindingKind {
    /// A uniform buffer of at least `min_size` bytes.
    UniformBuffer { min_size: u64 },
    /// A storage buffer of at least `min_size` bytes.
    StorageBuffer { read_only: bool, min_size: u64 },
    /// A two-dimensional, single-sampled texture of floats that need no filtering.
    FloatTexture2d,
}

/// One slot of a bind group layout.
#[derive(Clone, Copy, Debug, PartialEq, Eq, Structural)]
pub struct LayoutEntry {
    pub binding: u32,
    pub visibility: Visibility,
    pub kind: BindingKind,
}

/// The resources the pipelines bind.
#[derive(Clone, Copy, Debug, PartialEq, Eq, Structural)]
pub enum Resource {
    /// The sampler's grid size, two 32-bit words.
    GridDims,
    /// The radius of a plotted dot, one float.
    DotRadius,
    /// The sampler's points, one word each.
    Points,
    /// The texture that receives webcam frames.
    WebcamTexture,
    /// The sampler's per-pixel minimum distances.
    Radii,
    /// The smallest and largest sampling radius, two floats.
    RadiusBounds,
    /// The radius mode, one word.
    Mode,
    /// The tuning factor of the radius pass, one float.
    Magic,
}

/// One entry of a bind group: which resource goes in which slot.
#[derive(Clone, Copy, Debug, PartialEq, Eq, Structural)]
pub struct BindEntry {
    pub binding: u32,
    pub resource: Resource,
}

/// What kind of GPU object a resource is.
#[derive(Clone, Copy, Debug, PartialEq, Eq, Structural)]
pub enum ResourceClass {
    Uniform,
    Storage,
    Texture,
}

pub open spec fn resource_class(r: Resource) -> ResourceClass {
    match r {
        Resource::GridDims | Resource::DotRadius | Resource::RadiusBounds | Resource::Mode
        | Resource::Magic => ResourceClass::Uniform,
        Resource::Points | Resource::Radii => ResourceClass::Storage,
        Resource::WebcamTexture => ResourceClass::Texture,
    }
}

/// The size in bytes of the uniforms; the sampler's storage buffers are sized
/// by the sampler and have no fixed size here.
pub open spec fn resource_size(r: Resource) -> Option<nat> {
    match r {
        Resource::GridDims => Some(8),
        Resource::DotRadius => Some(4),
        Resource::RadiusBounds => Some(8),
        Resource::Mode => Some(4),
        Resource::Magic => Some(4),
        _ => None,
    }
}

/// The slot kind takes the resource: the classes agree and a known size is
/// at least the slot's minimum.
pub open spec fn accepts(kind: BindingKind, r: Resource) -> bool {
    match kind {
        BindingKind::UniformBuffer { min_size } => resource_class(r) == ResourceClass::Uniform
            && (resource_size(r) matches Some(s) ==> s >= min_size),
        BindingKind::StorageBuffer { min_size, .. } => resource_class(r) == ResourceClass::Storage
            && (resource_size(r) matches Some(s) ==> s >= min_size),
        BindingKind::FloatTexture2d => resource_class(r) == ResourceClass::Texture,
    }
}

/// Slots have distinct numbers and every buffer slot asks for a positive size.
pub open spec fn layout_well_formed(l: Seq<LayoutEntry>) -> bool {
    &&& forall|i: int, j: int| 0 <= i < j < l.len() ==> #[trigger] l[i].binding != #[trigger] l[j].binding
    &&& forall|i: int| 0 <= i < l.len() ==> match #[trigger] l[i].kind {
        BindingKind::UniformBuffer { min_size } => min_size > 0,
        BindingKind::StorageBuffer { min_size, .. } => min_size > 0,
        BindingKind::FloatTexture2d => true,
    }
}

/// The bind group fills every slot of the layout exactly once, with a
/// resource that the slot takes.
pub open spec fn bind_group_fits(l: Seq<LayoutEntry>, g: Seq<BindEntry>) -> bool {
    &&& layout_well_formed(l)
    &&& forall|i: int, j: int| 0 <= i < j < g.len() ==> #[trigger] g[i].binding != #[trigger] g[j].binding
    &&& forall|j: int| #![trigger g[j]] 0 <= j < g.len() ==> exists|i: int| #![trigger l[i]]
        0 <= i < l.len() && l[i].binding == g[j].binding && accepts(l[i].kind, g[j].resource)
    &&& forall|i: int| #![trigger l[i]] 0 <= i < l.len() ==> exists|j: int| #![trigger g[j]]
        0 <= j < g.len() && g[j].binding == l[i].binding
}

pub open spec fn spec_plotter_layout() -> Seq<LayoutEntry> {
    seq![
        LayoutEntry { binding: 0, visibility: Visibility::Vertex, kind: BindingKind::UniformBuffer { min_size: 8 } },
        LayoutEntry { binding: 1, visibility: Visibility::VertexFragment, kind: BindingKind::UniformBuffer { min_size: 4 } },
        LayoutEntry { binding: 2, visibility: Visibility::Vertex, kind: BindingKind::StorageBuffer { read_only: true, min_size: 4 } },
    ]
}

pub open spec fn spec_plotter_bind_group() -> Seq<BindEntry> {
    seq![
        BindEntry { binding: 0, resource: Resource::GridDims },
        BindEntry { binding: 1, resource: Resource::DotRadius },
        BindEntry { binding: 2, resource: Resource::Points },
    ]
}

pub open spec fn spec_calc_radii_layout() -> Seq<LayoutEntry> {
    seq![
        LayoutEntry { binding: 0, visibility: Visibility::Compute, kind: BindingKind::UniformBuffer { min_size: 8 } },
        LayoutEntry { binding: 3, visibility: Visibility::Compute, kind: BindingKind::FloatTexture2d },
        LayoutEntry { binding: 4, visibility: Visibility::Compute, kind: BindingKind::StorageBuffer { read_only: false, min_size: 4 } },
        LayoutEntry { binding: 5, visibility: Visibility::Compute, kind: BindingKind::UniformBuffer { min_size: 8 } },
        LayoutEntry { binding: 6, visibility: Visibility::Compute, kind: BindingKind::UniformBuffer { min_size: 4 } },
        LayoutEntry { binding: 7, visibility: Visibility::Compute, kind: BindingKind::UniformBuffer { min_size: 4 } },
    ]
}

pub open spec fn spec_calc_radii_bind_group() -> Seq<BindEntry> {
    seq![
        BindEntry { binding: 0, resource: Resource::GridDims },
        BindEntry { binding: 3, resource: Resource::WebcamTexture },
        BindEntry { binding: 4, resource: Resource::Radii },
        BindEntry { binding: 5, resource: Resource::RadiusBounds },
        BindEntry { binding: 6, resource: Resource::Mode },
        BindEntry { binding: 7, resource: Resource::Magic },
    ]
}

/// Each slot `l[k]` is filled by `g[k]`, in order: enough for the bind group
/// to fit once the numbers are known to be distinct and the kinds to agree.
proof fn lemma_fits_in_order(l: Seq<LayoutEntry>, g: Seq<BindEntry>)
    requires
        layout_well_formed(l),
        l.len() == g.len(),
        forall|k: int| 0 <= k < l.len() ==> #[trigger] l[k].binding == g[k].binding
            && accepts(l[k].kind, g[k].resource),
    ensures
        bind_group_fits(l, g),
{
    assert forall|i: int, j: int| 0 <= i < j < g.len() implies #[trigger] g[i].binding
        != #[trigger] g[j].binding by {
        assert(l[i].binding == g[i].binding);
        assert(l[j].binding == g[j].binding);
    }
    assert forall|j: int| #![trigger g[j]] 0 <= j < g.len() implies exists|i: int| #![trigger l[i]]
        0 <= i < l.len() && l[i].binding == g[j].binding && accepts(l[i].kind, g[j].resource) by {
        assert(l[j].binding == g[j].binding);
    }
    assert forall|i: int| #![trigger l[i]] 0 <= i < l.len() implies exists|j: int| #![trigger g[j]]
        0 <= j < g.len() && g[j].binding == l[i].binding by {
        assert(l[i].binding == g[i].binding);
    }
}

/// The slots of the plotting pipeline: the grid size and the dot radius as
/// uniforms, the points as a read-only storage buffer.
pub fn plotter_layout() -> (l: Vec<LayoutEntry>)
    ensures
        l@ == spec_plotter_layout(),
        layout_well_formed(l@),
{
    let l = vec![
        LayoutEntry { binding: 0, visibility: Visibility::Vertex, kind: BindingKind::UniformBuffer { min_size: 8 } },
        LayoutEntry { binding: 1, visibility: Visibility::VertexFragment, kind: BindingKind::UniformBuffer { min_size: 4 } },
        LayoutEntry { binding: 2, visibility: Visibility::Vertex, kind: BindingKind::StorageBuffer { read_only: true, min_size: 4 } },
    ];
    assert(l@ =~= spec_plotter_layout());
    l
}

/// The bind group of the plotting pipeline; it fits the plotting layout.
pub fn plotter_bind_group() -> (g: Vec<BindEntry>)
    ensures
        g@ == spec_plotter_bind_group(),
        bind_group_fits(spec_plotter_layout(), g@),
{
    let g = vec![
        BindEntry { binding: 0, resource: Resource::GridDims },
        BindEntry { binding: 1, resource: Resource::DotRadius },
        BindEntry { binding: 2, resource: Resource::Points },
    ];
    assert(g@ =~= spec_plotter_bind_group());
    proof {
        let l = spec_plotter_layout();
        assert(l[0].binding == g@[0].binding && accepts(l[0].kind, g@[0].resource));
        assert(l[1].binding == g@[1].binding && accepts(l[1].kind, g@[1].resource));
        assert(l[2].binding == g@[2].binding && accepts(l[2].kind, g@[2].resource));
        lemma_fits_in_order(l, g@);
    }
    g
}

/// The slots of the radius pipeline: the grid size, the webcam texture, the
/// radii to write, the radius bounds, the mode and the tuning factor.
pub fn calc_radii_layout() -> (l: Vec<LayoutEntry>)
    ensures
        l@ == spec_calc_radii_layout(),
        layout_well_formed(l@),
{
    let l = vec![
        LayoutEntry { binding: 0, visibility: Visibility::Compute, kind: BindingKind::UniformBuffer { min_size: 8 } },
        LayoutEntry { binding: 3, visibility: Visibility::Compute, kind: BindingKind::FloatTexture2d },
        LayoutEntry { binding: 4, visibility: Visibility::Compute, kind: BindingKind::StorageBuffer { read_only: false, min_size: 4 } },
        LayoutEntry { binding: 5, visibility: Visibility::Compute, kind: BindingKind::UniformBuffer { min_size: 8 } },
        LayoutEntry { binding: 6, visibility: Visibility::Compute, kind: BindingKind::UniformBuffer { min_size: 4 } },
        LayoutEntry { binding: 7, visibility: Visibility::Compute, kind: BindingKind::UniformBuffer { min_size: 4 } },
    ];
    assert(l@ =~= spec_calc_radii_layout());
    l
}

/// The bind group of the radius pipeline; it fits the radius layout.
pub fn calc_radii_bind_group() -> (g: Vec<BindEntry>)
    ensures
        g@ == spec_calc_radii_bind_group(),
        bind_group_fits(spec_calc_radii_layout(), g@),
{
    let g = vec![
        BindEntry { binding: 0, resource: Resource::GridDims },
        BindEntry { binding: 3, resource: Resource::WebcamTexture },
        BindEntry { binding: 4, resource: Resource::Radii },
        BindEntry { binding: 5, resource: Resource::RadiusBounds },
        BindEntry { binding: 6, resource: Resource::Mode },
        BindEntry { binding: 7, resource: Resource::Magic },
    ];
    assert(g@ =~= spec_calc_radii_bind_group());
    proof {
        let l = spec_calc_radii_layout();
        assert(l[0].binding == g@[0].binding && accepts(l[0].kind, g@[0].resource));
        assert(l[1].binding == g@[1].binding && accepts(l[1].kind, g@[1].resource));
        assert(l[2].binding == g@[2].binding && accepts(l[2].kind, g@[2].resource));
        assert(l[3].binding == g@[3].binding && accepts(l[3].kind, g@[3].resource));
        assert(l[4].binding == g@[4].binding && accepts(l[4].kind, g@[4].resource));
        assert(l[5].binding == g@[5].binding && accepts(l[5].kind, g@[5].resource));
        lemma_fits_in_order(l, g@);
    }
    g
}

/// The `@binding` under which the radius shader declares each resource it
/// uses; `None` for the resources it does not use.
pub open spec fn calc_radii_shader_slot(r: Resource) -> Option<u32> {
    match r {
        Resource::GridDims => Some(0),
        Resource::WebcamTexture => Some(3),
        Resource::Radii => Some(4),
        Resource::RadiusBounds => Some(5),
        Resource::Mode => Some(6),
        Resource::Magic => Some(7),
        _ => None,
    }
}

/// The `@binding` under which the plotting shader declares each resource it
/// uses; `None` for the resources it does not use.
pub open spec fn plotter_shader_slot(r: Resource) -> Option<u32> {
    match r {
        Resource::GridDims => Some(0),
        Resource::DotRadius => Some(1),
        Resource::Points => Some(2),
        _ => None,
    }
}

/// The smallest binding a shader can use of a resource: the whole of a
/// uniform, one element of a storage array.
pub open spec fn min_binding_bytes(r: Resource) -> nat {
    match r {
        Resource::Points | Resource::Radii => 4,
        _ => match resource_size(r) {
            Some(n) => n,
            None => 0,
        },
    }
}

/// `g` binds each resource the shader uses exactly once, at the slot the
/// shader declares it under, and binds nothing else.
pub open spec fn binds_shader_slots(g: Seq<BindEntry>, slot: spec_fn(Resource) -> Option<u32>) -> bool {
    &&& forall|j: int| 0 <= j < g.len() ==> slot(#[trigger] g[j].resource) == Some(g[j].binding)
    &&& forall|i: int, j: int| 0 <= i < j < g.len() ==> #[trigger] g[i].resource != #[trigger] g[j].resource
    &&& forall|r: Resource| #[trigger] slot(r) is Some ==> exists|j: int| 0 <= j < g.len() && g[j].resource == r
}

/// The slot of `l` numbered `b`, when it asks for a buffer, asks for exactly
/// `n` bytes at least.
pub open spec fn slot_min_size_is(l: Seq<LayoutEntry>, b: u32, n: nat) -> bool {
    forall|i: int| 0 <= i < l.len() && #[trigger] l[i].binding == b ==> match l[i].kind {
        BindingKind::UniformBuffer { min_size } => min_size == n,
        BindingKind::StorageBuffer { min_size, .. } => min_size == n,
        BindingKind::FloatTexture2d => true,
    }
}

/// Every slot in `l` numbered like an entry of `g` asks for no more and no
/// less than the smallest binding of that entry's resource.
pub open spec fn min_sizes_exact(l: Seq<LayoutEntry>, g: Seq<BindEntry>) -> bool {
    forall|j: int| 0 <= j < g.len() ==> slot_min_size_is(l, #[trigger] g[j].binding, min_binding_bytes(g[j].resource))
}

/// A slot that lets a shader write a storage buffer.
pub open spec fn is_writable_storage(k: BindingKind) -> bool {
    k matches BindingKind::StorageBuffer { read_only: false, .. }
}

/// The radius pipeline binds the grid size, the webcam texture, the radii,
/// the radius bounds, the mode and the tuning factor, each once, at the
/// slots its shader declares, and its layout asks for each binding's exact
/// size. Every slot is seen by the compute stage, and the radii slot is
/// writable, as the pass writes the radii.
pub proof fn lemma_calc_radii_tables_match_shader()
    ensures
        binds_shader_slots(spec_calc_radii_bind_group(), |r: Resource| calc_radii_shader_slot(r)),
        min_sizes_exact(spec_calc_radii_layout(), spec_calc_radii_bind_group()),
        forall|i: int| 0 <= i < spec_calc_radii_layout().len()
            ==> #[trigger] spec_calc_radii_layout()[i].visibility == Visibility::Compute,
        forall|i: int| 0 <= i < spec_calc_radii_layout().len()
            && #[trigger] spec_calc_radii_layout()[i].binding == calc_radii_shader_slot(Resource::Radii)->0
            ==> is_writable_storage(spec_calc_radii_layout()[i].kind),
{
    let g = spec_calc_radii_bind_group();
    let l = spec_calc_radii_layout();
    let slot = |r: Resource| calc_radii_shader_slot(r);
    assert forall|r: Resource| #[trigger] slot(r) is Some implies exists|j: int| 0 <= j < g.len() && g[j].resource == r by {
        match r {
            Resource::GridDims => assert(g[0].resource == r),
            Resource::WebcamTexture => assert(g[1].resource == r),
            Resource::Radii => assert(g[2].resource == r),
            Resource::RadiusBounds => assert(g[3].resource == r),
            Resource::Mode => assert(g[4].resource == r),
            Resource::Magic => assert(g[5].resource == r),
            _ => {},
        }
    }
    assert forall|j: int| 0 <= j < g.len() implies slot_min_size_is(l, #[trigger] g[j].binding, min_binding_bytes(g[j].resource)) by {
        assert forall|i: int| 0 <= i < l.len() && #[trigger] l[i].binding == g[j].binding implies match l[i].kind {
            BindingKind::UniformBuffer { min_size } => min_size == min_binding_bytes(g[j].resource),
            BindingKind::StorageBuffer { min_size, .. } => min_size == min_binding_bytes(g[j].resource),
            BindingKind::FloatTexture2d => true,
        } by {
            assert(i == j);
        }
    }
}

/// The plotting pipeline binds the grid size, the dot radius and the points,
/// each once, at the slots its shader declares, and its layout asks for each
/// binding's exact size. Every slot is seen by the vertex stage, only the dot
/// radius is also seen by the fragment stage, and the vertex stage is given
/// no writable storage.
pub proof fn lemma_plotter_tables_match_shader()
    ensures
        binds_shader_slots(spec_plotter_bind_group(), |r: Resource| plotter_shader_slot(r)),
        min_sizes_exact(spec_plotter_layout(), spec_plotter_bind_group()),
        forall|i: int| 0 <= i < spec_plotter_layout().len() ==> {
            let v = #[trigger] spec_plotter_layout()[i].visibility;
            v == Visibility::Vertex || v == Visibility::VertexFragment
        },
        forall|i: int| 0 <= i < spec_plotter_layout().len() ==> (
            #[trigger] spec_plotter_layout()[i].visibility == Visibility::VertexFragment
                <==> spec_plotter_layout()[i].binding == plotter_shader_slot(Resource::DotRadius)->0),
        forall|i: int| 0 <= i < spec_plotter_layout().len()
            ==> !is_writable_storage(#[trigger] spec_plotter_layout()[i].kind),
{
    let g = spec_plotter_bind_group();
    let l = spec_plotter_layout();
    let slot = |r: Resource| plotter_shader_slot(r);
    assert forall|r: Resource| #[trigger] slot(r) is Some implies exists|j: int| 0 <= j < g.len() && g[j].resource == r by {
        match r {
            Resource::GridDims => assert(g[0].resource == r),
            Resource::DotRadius => assert(g[1].resource == r),
            Resource::Points => assert(g[2].resource == r),
            _ => {},
        }
    }
    assert forall|j: int| 0 <= j < g.len() implies slot_min_size_is(l, #[trigger] g[j].binding, min_binding_bytes(g[j].resource)) by {
        assert forall|i: int| 0 <= i < l.len() && #[trigger] l[i].binding == g[j].binding implies match l[i].kind {
            BindingKind::UniformBuffer { min_size } => min_size == min_binding_bytes(g[j].resource),
            BindingKind::StorageBuffer { min_size, .. } => min_size == min_binding_bytes(g[j].resource),
            BindingKind::FloatTexture2d => true,
        } by {
            assert(i == j);
        }
    }
}

} // verus!
