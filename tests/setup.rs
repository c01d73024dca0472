use rs_d3d::d3d12::{
    is_software_adapter, AdapterEvent, AdapterSearch, AdapterSource, DeviceFactory,
    FactorySource, SearchAction, FACTORY_DEBUG_FLAG, MIN_FEATURE_LEVEL,
};
use rs_d3d::surface::{
    rtv_address, surface_layout, ScissorRect, SurfaceError, SurfaceLayout, Viewport,
};

#[test]
fn default_plan_uses_hardware_and_new_factory() {
    let plan = DeviceFactory::new(false).create();
    assert!(!plan.enable_debug_layer);
    assert!(matches!(plan.factory, FactorySource::Create { flags: 0 }));
    assert_eq!(plan.adapter, AdapterSource::Hardware);
    assert_eq!(plan.feature_level, MIN_FEATURE_LEVEL);
    assert_eq!(MIN_FEATURE_LEVEL, 0xb000);
}

#[test]
fn debug_build_plan_enables_debug_layer() {
    let plan = DeviceFactory::new(true).create();
    assert!(plan.enable_debug_layer);
    assert!(matches!(plan.factory, FactorySource::Create { flags: FACTORY_DEBUG_FLAG }));
    assert_eq!(FACTORY_DEBUG_FLAG, 1);
}

#[test]
fn builder_settings_reach_the_plan() {
    let mut factory = DeviceFactory::new(false);
    factory.enable_debug_layer(true).use_warp_adapter(true);
    let plan = factory.create();
    assert!(plan.enable_debug_layer);
    assert_eq!(plan.adapter, AdapterSource::Warp);
    assert!(matches!(plan.factory, FactorySource::Create { flags: 1 }));

    let mut factory = DeviceFactory::new(true);
    factory.enable_debug_layer(false);
    let plan = factory.create();
    assert!(!plan.enable_debug_layer);
    assert!(matches!(plan.factory, FactorySource::Create { flags: 0 }));
}

#[test]
fn software_flag_detection() {
    assert!(!is_software_adapter(0));
    assert!(!is_software_adapter(1));
    assert!(is_software_adapter(2));
    assert!(is_software_adapter(3));
}

#[test]
fn search_skips_software_and_unsupported_adapters() {
    let mut search = AdapterSearch::new();
    assert_eq!(search.request(), SearchAction::Describe(0));
    assert_eq!(search.step(AdapterEvent::Described { flags: 2 }), SearchAction::Describe(1));
    assert_eq!(search.step(AdapterEvent::Described { flags: 0 }), SearchAction::Probe(1));
    assert_eq!(search.step(AdapterEvent::Probed { supported: false }), SearchAction::Describe(2));
    assert_eq!(search.step(AdapterEvent::Described { flags: 0 }), SearchAction::Probe(2));
    assert_eq!(search.step(AdapterEvent::Probed { supported: true }), SearchAction::Select(2));
    assert_eq!(search.step(AdapterEvent::EndOfList), SearchAction::Select(2));
}

#[test]
fn search_fails_at_end_of_list() {
    let mut search = AdapterSearch::new();
    assert_eq!(search.step(AdapterEvent::Described { flags: 2 }), SearchAction::Describe(1));
    assert_eq!(search.step(AdapterEvent::EndOfList), SearchAction::NoSuitableAdapter);
    assert_eq!(search.request(), SearchAction::NoSuitableAdapter);
}

#[test]
fn search_ignores_answers_to_other_requests() {
    let mut search = AdapterSearch::new();
    assert_eq!(search.step(AdapterEvent::Probed { supported: true }), SearchAction::Describe(0));
    assert_eq!(search.step(AdapterEvent::Described { flags: 0 }), SearchAction::Probe(0));
    assert_eq!(search.step(AdapterEvent::EndOfList), SearchAction::Probe(0));
    assert_eq!(search.step(AdapterEvent::Probed { supported: true }), SearchAction::Select(0));
}

#[test]
fn layout_matches_client_area() {
    let layout = surface_layout(800, 600, 2).unwrap();
    assert_eq!(
        layout,
        SurfaceLayout {
            width: 800,
            height: 600,
            buffer_count: 2,
            viewport: Viewport { width: 800, height: 600 },
            scissor: ScissorRect { left: 0, top: 0, right: 800, bottom: 600 },
        }
    );
    assert_eq!(surface_layout(800, 600, 0), Err(SurfaceError::NoBackBuffers));
    assert_eq!(surface_layout(1 << 31, 600, 2), Err(SurfaceError::TooLarge));
    assert_eq!(surface_layout(800, u32::MAX, 2), Err(SurfaceError::TooLarge));
    let largest = surface_layout(i32::MAX as u32, 1, 2).unwrap();
    assert_eq!(largest.scissor.right, i32::MAX);
}

#[test]
fn render_target_addresses() {
    assert_eq!(rtv_address(1000, 32, 0), Some(1000));
    assert_eq!(rtv_address(1000, 32, 1), Some(1032));
    assert_eq!(rtv_address(0, 0, u32::MAX), Some(0));
    assert_eq!(rtv_address(usize::MAX, 1, 1), None);
    assert_eq!(rtv_address(usize::MAX - 10, 5, 2), Some(usize::MAX));
    assert_eq!(rtv_address(0, usize::MAX, 2), None);
}
