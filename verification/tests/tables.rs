use poisson_webcam::layout::{
    calc_radii_bind_group, calc_radii_layout, plotter_bind_group, plotter_layout, BindEntry,
    BindingKind, LayoutEntry, Resource, Visibility,
};
use poisson_webcam::mode::RadiusMode;
use poisson_webcam::sliders::{Slider, UniformWrite};

#[test]
fn plotter_layout_entries() {
    assert_eq!(
        plotter_layout(),
        vec![
            LayoutEntry { binding: 0, visibility: Visibility::Vertex, kind: BindingKind::UniformBuffer { min_size: 8 } },
            LayoutEntry { binding: 1, visibility: Visibility::VertexFragment, kind: BindingKind::UniformBuffer { min_size: 4 } },
            LayoutEntry { binding: 2, visibility: Visibility::Vertex, kind: BindingKind::StorageBuffer { read_only: true, min_size: 4 } },
        ]
    );
}

#[test]
fn plotter_bind_group_entries() {
    assert_eq!(
        plotter_bind_group(),
        vec![
            BindEntry { binding: 0, resource: Resource::GridDims },
            BindEntry { binding: 1, resource: Resource::DotRadius },
            BindEntry { binding: 2, resource: Resource::Points },
        ]
    );
}

#[test]
fn calc_radii_tables() {
    let layout = calc_radii_layout();
    let group = calc_radii_bind_group();
    assert_eq!(layout.len(), 6);
    assert_eq!(layout[1].kind, BindingKind::FloatTexture2d);
    assert_eq!(layout[2].kind, BindingKind::StorageBuffer { read_only: false, min_size: 4 });
    assert_eq!(
        group.iter().map(|e| e.binding).collect::<Vec<_>>(),
        vec![0, 3, 4, 5, 6, 7]
    );
    assert_eq!(group[4], BindEntry { binding: 6, resource: Resource::Mode });
}

#[test]
fn every_bind_group_slot_is_in_the_layout() {
    for (layout, group) in [(plotter_layout(), plotter_bind_group()), (calc_radii_layout(), calc_radii_bind_group())] {
        assert_eq!(layout.len(), group.len());
        for e in &group {
            assert_eq!(layout.iter().filter(|l| l.binding == e.binding).count(), 1);
        }
    }
}

#[test]
fn radius_mode_codes() {
    assert_eq!(RadiusMode::Highlight.code(), 0);
    assert_eq!(RadiusMode::Shade.code(), 1);
    assert_eq!(RadiusMode::Red.code(), 2);
    assert_eq!(RadiusMode::Green.code(), 3);
    assert_eq!(RadiusMode::Blue.code(), 4);
}

#[test]
fn mode_uniform_holds_the_code() {
    assert_eq!(RadiusMode::Shade.uniform_contents(), 1u32.to_ne_bytes().to_vec());
    assert_eq!(RadiusMode::Blue.uniform_contents(), 4u32.to_ne_bytes().to_vec());
    assert_eq!(RadiusMode::Highlight.uniform_contents(), vec![0, 0, 0, 0]);
}

#[test]
fn slider_ids() {
    assert_eq!(Slider::MinRadius.element_id(), "min-radius");
    assert_eq!(Slider::MaxRadius.element_id(), "max-radius");
    assert_eq!(Slider::DotRadius.element_id(), "dot-radius");
    assert_eq!(Slider::Magic.element_id(), "magic");
}

#[test]
fn slider_targets() {
    assert_eq!(Slider::MinRadius.target(), UniformWrite { resource: Resource::RadiusBounds, offset: 0 });
    assert_eq!(Slider::MaxRadius.target(), UniformWrite { resource: Resource::RadiusBounds, offset: 4 });
    assert_eq!(Slider::DotRadius.target(), UniformWrite { resource: Resource::DotRadius, offset: 0 });
    assert_eq!(Slider::Magic.target(), UniformWrite { resource: Resource::Magic, offset: 0 });
}

#[test]
fn slider_writes_do_not_overlap() {
    let all = [Slider::MinRadius, Slider::MaxRadius, Slider::DotRadius, Slider::Magic];
    for a in all {
        for b in all {
            if a != b {
                let (wa, wb) = (a.target(), b.target());
                assert!(wa.resource != wb.resource || wa.offset + 4 <= wb.offset || wb.offset + 4 <= wa.offset);
                assert_ne!(a.element_id(), b.element_id());
            }
        }
    }
}
