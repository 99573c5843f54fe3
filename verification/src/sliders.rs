//! The four sliders of the page and the uniform bytes each one rewrites.
use vstd::prelude::*;
use crate::layout::{Resource, ResourceClass, resource_class, resource_size};

verus! {

/// Bytes a slider writes: one 32-bit float.
pub const SLIDER_VALUE_BYTES: u64 = 4;

/// The range inputs of the page.
#[derive(Clone, Copy, Debug, PartialEq, Eq, Structural)]
pub enum Slider {
    MinRadius,
    MaxRadius,
    DotRadius,
    Magic,
}

/// Where a slider's value goes: a uniform and a byte offset in it.
#[derive(Clone, Copy, Debug, PartialEq, Eq, Structural)]
pub struct UniformWrite {
    pub resource: Resource,
    pub offset: u64,
}

pub open spec fn spec_element_id(s: Slider) -> Seq<char> {
    match s {
        Slider::MinRadius => "min-radius"@,
        Slider::MaxRadius => "max-radius"@,
        Slider::DotRadius => "dot-radius"@,
        Slider::Magic => "magic"@,
    }
}

pub open spec fn spec_target(s: Slider) -> UniformWrite {
    match s {
        Slider::MinRadius => UniformWrite { resource: Resource::RadiusBounds, offset: 0 },
        Slider::MaxRadius => UniformWrite { resource: Resource::RadiusBounds, offset: 4 },
        Slider::DotRadius => UniformWrite { resource: Resource::DotRadius, offset: 0 },
        Slider::Magic => UniformWrite { resource: Resource::Magic, offset: 0 },
    }
}

impl Slider {
    /// The id of the slider's input element in the page.
    pub fn element_id(self) -> (id: &'static str)
        ensures
            id@ == spec_element_id(self),
    {
        match self {
            Slider::MinRadius => "min-radius",
            Slider::MaxRadius => "max-radius",
            Slider::DotRadius => "dot-radius",
            Slider::Magic => "magic",
        }
    }

    /// The uniform bytes that the slider's value replaces: the smallest and
    /// largest radius are the two halves of the radius bounds, the dot radius
    /// and the tuning factor fill their own uniforms.
    pub fn target(self) -> (w: UniformWrite)
        ensures
            w == spec_target(self),
    {
        match self {
            Slider::MinRadius => UniformWrite { resource: Resource::RadiusBounds, offset: 0 },
            Slider::MaxRadius => UniformWrite { resource: Resource::RadiusBounds, offset: 4 },
            Slider::DotRadius => UniformWrite { resource: Resource::DotRadius, offset: 0 },
            Slider::Magic => UniformWrite { resource: Resource::Magic, offset: 0 },
        }
    }
}

/// Every slider writes a whole float inside a uniform.
pub proof fn lemma_slider_write_in_bounds(s: Slider)
    ensures
        resource_class(spec_target(s).resource) == ResourceClass::Uniform,
        resource_size(spec_target(s).resource) is Some,
        spec_target(s).offset + SLIDER_VALUE_BYTES <= resource_size(spec_target(s).resource)->0,
{
}

/// Two different sliders never write the same bytes.
pub proof fn lemma_slider_writes_disjoint(a: Slider, b: Slider)
    requires
        a != b,
    ensures
        spec_target(a).resource != spec_target(b).resource
            || spec_target(a).offset + SLIDER_VALUE_BYTES <= spec_target(b).offset
            || spec_target(b).offset + SLIDER_VALUE_BYTES <= spec_target(a).offset,
{
}

/// The smallest and largest radius share the radius bounds uniform, the
/// smallest first and the largest in the float right after it.
pub proof fn lemma_radius_bounds_in_order()
    ensures
        spec_target(Slider::MinRadius).resource == Resource::RadiusBounds,
        spec_target(Slider::MaxRadius).resource == Resource::RadiusBounds,
        spec_target(Slider::MinRadius).offset == 0,
        spec_target(Slider::MinRadius).offset + SLIDER_VALUE_BYTES == spec_target(Slider::MaxRadius).offset,
{
}

/// Different sliders have different element ids.
pub proof fn lemma_slider_ids_distinct(a: Slider, b: Slider)
    requires
        a != b,
    ensures
        spec_element_id(a) != spec_element_id(b),
{
    reveal_strlit("min-radius");
    reveal_strlit("max-radius");
    reveal_strlit("dot-radius");
    reveal_strlit("magic");
    assert("min-radius"@[1] != "max-radius"@[1]);
    assert("min-radius"@[0] != "dot-radius"@[0]);
    assert("max-radius"@[0] != "dot-radius"@[0]);
    assert("min-radius"@.len() != "magic"@.len());
    assert("max-radius"@.len() != "magic"@.len());
    assert("dot-radius"@.len() != "magic"@.len());
}

} // verus!
