//! Picking the backend from the answers of the library lookups.
use shroud::{detect_render_engine, RenderEngine, ShroudError};

const ENGINES: [RenderEngine; 5] = [
    RenderEngine::DirectX9,
    RenderEngine::DirectX10,
    RenderEngine::DirectX11,
    RenderEngine::DirectX12,
    RenderEngine::Vulkan,
];

/// Looks every library up by its name in a list of the names that are loaded.
fn lookups(loaded: &[&str]) -> Vec<Option<usize>> {
    ENGINES
        .iter()
        .map(|engine| {
            let name = RenderEngine::dll_name(engine);
            loaded.iter().position(|library| *library == name).map(|at| 0x4000_0000 + at)
        })
        .collect()
}

#[test]
fn nothing_loaded_is_nothing_found() {
    assert_eq!(detect_render_engine(&lookups(&[])), None);
    assert_eq!(detect_render_engine(&vec![None; 5]), None);
    assert_eq!(detect_render_engine(&lookups(&["opengl32.dll\0", "d3d9.dll"])), None);
}

#[test]
fn the_one_loaded_backend_is_found() {
    assert_eq!(detect_render_engine(&lookups(&["d3d9.dll\0"])), Some(RenderEngine::DirectX9));
    assert_eq!(detect_render_engine(&lookups(&["d3d10.dll\0"])), Some(RenderEngine::DirectX10));
    assert_eq!(detect_render_engine(&lookups(&["d3d11.dll\0"])), Some(RenderEngine::DirectX11));
    assert_eq!(detect_render_engine(&lookups(&["d3d12.dll\0"])), Some(RenderEngine::DirectX12));
    assert_eq!(detect_render_engine(&lookups(&["vulkan-1.dll\0"])), Some(RenderEngine::Vulkan));
}

#[test]
fn of_several_loaded_backends_the_first_in_order_is_found() {
    assert_eq!(
        detect_render_engine(&lookups(&["d3d12.dll\0", "d3d11.dll\0"])),
        Some(RenderEngine::DirectX11)
    );
    assert_eq!(
        detect_render_engine(&lookups(&["vulkan-1.dll\0", "d3d12.dll\0", "d3d9.dll\0"])),
        Some(RenderEngine::DirectX9)
    );
    assert_eq!(
        detect_render_engine(&vec![None, Some(1), Some(2), Some(3), Some(4)]),
        Some(RenderEngine::DirectX10)
    );
}

#[test]
fn a_short_list_of_lookups_counts_the_rest_as_not_loaded() {
    assert_eq!(detect_render_engine(&Vec::new()), None);
    assert_eq!(detect_render_engine(&vec![None, None]), None);
    assert_eq!(detect_render_engine(&vec![None, None, Some(7)]), Some(RenderEngine::DirectX11));
}

#[test]
fn lookups_beyond_the_last_backend_are_ignored() {
    assert_eq!(detect_render_engine(&vec![None, None, None, None, None, Some(7)]), None);
}

#[test]
fn a_null_handle_that_was_found_still_counts() {
    assert_eq!(detect_render_engine(&vec![None, None, None, Some(0)]), Some(RenderEngine::DirectX12));
}

#[test]
fn library_names_end_in_a_null() {
    assert_eq!(RenderEngine::dll_name(&RenderEngine::DirectX9), "d3d9.dll\0");
    assert_eq!(RenderEngine::dll_name(&RenderEngine::DirectX10), "d3d10.dll\0");
    assert_eq!(RenderEngine::dll_name(&RenderEngine::DirectX11), "d3d11.dll\0");
    assert_eq!(RenderEngine::dll_name(&RenderEngine::DirectX12), "d3d12.dll\0");
    assert_eq!(RenderEngine::dll_name(&RenderEngine::Vulkan), "vulkan-1.dll\0");
}

#[test]
fn ranks_run_through_the_backends_in_order() {
    for (rank, engine) in ENGINES.iter().enumerate() {
        assert_eq!(RenderEngine::from_rank(rank), Some(*engine));
    }
    assert_eq!(RenderEngine::from_rank(5), None);
    assert_eq!(RenderEngine::from_rank(usize::MAX), None);
    assert_eq!(RenderEngine::COUNT, 5);
}

#[test]
fn a_lookup_gives_the_handle_or_names_the_backend() {
    assert_eq!(RenderEngine::get_render_engine_handle(&RenderEngine::DirectX11, Some(0x77)), Ok(0x77));
    assert_eq!(
        RenderEngine::get_render_engine_handle(&RenderEngine::DirectX11, None),
        Err(ShroudError::BackendNotFound(RenderEngine::DirectX11))
    );
}

#[test]
fn errors_of_native_calls_carry_the_status() {
    assert_eq!(ShroudError::BackendInitError(-1).code(), Some(-1));
    assert_eq!(ShroudError::AdapterEnumerationError(-2).code(), Some(-2));
    assert_eq!(ShroudError::DeviceCreationError(-3).code(), Some(-3));
    assert_eq!(ShroudError::QueueCreationError(-4).code(), Some(-4));
    assert_eq!(ShroudError::AllocatorCreationError(-5).code(), Some(-5));
    assert_eq!(ShroudError::CommandListCreationError(-6).code(), Some(-6));
    assert_eq!(ShroudError::SurfaceCreationError(i32::MIN).code(), Some(i32::MIN));
    assert_eq!(ShroudError::WindowUnavailable.code(), None);
    assert_eq!(ShroudError::BackendNotFound(RenderEngine::DirectX9).code(), None);
    assert_eq!(
        ShroudError::ExpectationViolated(shroud::protocol::Stage::Device).code(),
        None
    );
}
