//! The window of a bootstrap and the description of its surface.
use shroud::bootstrap::surface_for;
use shroud::directx9::device_request;
use shroud::directx9::{DeviceRequest, PresentParameters};
use shroud::swapchain_util::{
    default_swapchain_descriptor, get_process_window, get_window_from_swapchain,
    SwapchainDescriptor, TopLevelWindow, FLAG_ALLOW_MODE_SWITCH, FORMAT_R8G8B8A8_UNORM,
    SWAP_EFFECT_DISCARD, SWAP_EFFECT_FLIP_DISCARD, USAGE_RENDER_TARGET_OUTPUT,
};
use shroud::RenderEngine;

fn window(handle: usize, process_id: u32) -> TopLevelWindow {
    TopLevelWindow { handle, process_id }
}

#[test]
fn the_default_description_has_the_fixed_values() {
    let desc = default_swapchain_descriptor(0xabc);
    assert_eq!(
        desc,
        SwapchainDescriptor {
            width: 0,
            height: 0,
            refresh_numerator: 60,
            refresh_denominator: 1,
            format: 28,
            scanline_ordering: 0,
            scaling: 0,
            sample_count: 1,
            sample_quality: 0,
            buffer_usage: 0x20,
            buffer_count: 2,
            output_window: 0xabc,
            windowed: true,
            swap_effect: 0,
            flags: 2,
        }
    );
    assert_eq!(desc.format, FORMAT_R8G8B8A8_UNORM);
    assert_eq!(desc.buffer_usage, USAGE_RENDER_TARGET_OUTPUT);
    assert_eq!(desc.swap_effect, SWAP_EFFECT_DISCARD);
    assert_eq!(desc.flags, FLAG_ALLOW_MODE_SWITCH);
}

#[test]
fn the_description_follows_the_window() {
    assert_eq!(default_swapchain_descriptor(0).output_window, 0);
    assert_eq!(default_swapchain_descriptor(usize::MAX).output_window, usize::MAX);
}

#[test]
fn only_the_explicit_generation_flips() {
    for engine in [RenderEngine::DirectX9, RenderEngine::DirectX10, RenderEngine::DirectX11, RenderEngine::Vulkan] {
        assert_eq!(surface_for(engine, 5), default_swapchain_descriptor(5));
    }
    let surface = surface_for(RenderEngine::DirectX12, 5);
    assert_eq!(surface.swap_effect, SWAP_EFFECT_FLIP_DISCARD);
    assert_eq!(surface.swap_effect, 4);
    assert_eq!(surface.buffer_count, 2);
    assert_eq!(
        SwapchainDescriptor { swap_effect: SWAP_EFFECT_DISCARD, ..surface },
        default_swapchain_descriptor(5)
    );
}

#[test]
fn the_window_of_a_described_swapchain_is_its_output_window() {
    assert_eq!(get_window_from_swapchain(Ok(default_swapchain_descriptor(0x1234))), Some(0x1234));
    assert_eq!(get_window_from_swapchain(Err(-2005270527)), None);
}

#[test]
fn the_first_window_of_the_process_is_found() {
    let windows = vec![window(1, 10), window(2, 20), window(3, 30), window(4, 20)];
    assert_eq!(get_process_window(&windows, 20), Some(2));
    assert_eq!(get_process_window(&windows, 10), Some(1));
    assert_eq!(get_process_window(&windows, 30), Some(3));
}

#[test]
fn a_process_without_windows_finds_none() {
    let windows = vec![window(1, 10), window(2, 20)];
    assert_eq!(get_process_window(&windows, 99), None);
    assert_eq!(get_process_window(&Vec::new(), 10), None);
}

#[test]
fn a_first_owned_window_without_a_handle_is_none() {
    let windows = vec![window(1, 10), window(0, 20), window(3, 20)];
    assert_eq!(get_process_window(&windows, 20), None);
}

#[test]
fn the_device_request_needs_no_hardware() {
    assert_eq!(
        device_request(77),
        DeviceRequest {
            adapter: 0,
            device_type: 4,
            focus_window: 77,
            behavior_flags: 288,
            presentation: PresentParameters {
                back_buffer_width: 0,
                back_buffer_height: 0,
                back_buffer_format: 0,
                back_buffer_count: 0,
                multisample_type: 0,
                multisample_quality: 0,
                swap_effect: 1,
                device_window: 77,
                windowed: true,
                enable_auto_depth_stencil: false,
                auto_depth_stencil_format: 0,
                flags: 0,
                full_screen_refresh_rate: 0,
                presentation_interval: 0,
            },
        }
    );
}
