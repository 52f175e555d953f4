//! The window that a bootstrap presents to, and the description of the surface
//! that is created for it.
use vstd::prelude::*;

verus! {

/// The pixel format of red, green, blue and alpha, eight bits each, unsigned and
/// normalised.
pub const FORMAT_R8G8B8A8_UNORM: i32 = 28;

/// The scanline order that leaves the order to the display.
pub const SCANLINE_ORDER_UNSPECIFIED: i32 = 0;

/// The scaling that leaves the scaling to the display.
pub const SCALING_UNSPECIFIED: i32 = 0;

/// The buffer usage of a surface that rendering writes to.
pub const USAGE_RENDER_TARGET_OUTPUT: u32 = 32;

/// The swap effect that discards a buffer once it was presented.
pub const SWAP_EFFECT_DISCARD: i32 = 0;

/// The swap effect that flips between the buffers and discards what was presented.
pub const SWAP_EFFECT_FLIP_DISCARD: i32 = 4;

/// The flag that lets the surface change the display mode with its window.
pub const FLAG_ALLOW_MODE_SWITCH: u32 = 2;

/// The description from which a presentation surface is created, field for
/// field as the native layer takes it.
#[derive(Debug, Clone, Copy, PartialEq, Eq, Structural)]
pub struct SwapchainDescriptor {
    pub width: u32,
    pub height: u32,
    pub refresh_numerator: u32,
    pub refresh_denominator: u32,
    pub format: i32,
    pub scanline_ordering: i32,
    pub scaling: i32,
    /// Samples per pixel: one is no multisampling.
    pub sample_count: u32,
    pub sample_quality: u32,
    pub buffer_usage: u32,
    pub buffer_count: u32,
    pub output_window: usize,
    pub windowed: bool,
    pub swap_effect: i32,
    pub flags: u32,
}

/// A top-level window of the desktop with the process that owns it.
#[derive(Debug, Clone, Copy, PartialEq, Eq, Structural)]
pub struct TopLevelWindow {
    pub handle: usize,
    pub process_id: u32,
}

/// The description that is used where a backend asks for nothing else: two
/// buffers of eight bits a channel at sixty frames a second, sized by the
/// window, written to by rendering, no multisampling, windowed, discarded once
/// presented, and free to change the display mode.
pub open spec fn default_descriptor(window: usize) -> SwapchainDescriptor {
    SwapchainDescriptor {
        width: 0,
        height: 0,
        refresh_numerator: 60,
        refresh_denominator: 1,
        format: FORMAT_R8G8B8A8_UNORM,
        scanline_ordering: SCANLINE_ORDER_UNSPECIFIED,
        scaling: SCALING_UNSPECIFIED,
        sample_count: 1,
        sample_quality: 0,
        buffer_usage: USAGE_RENDER_TARGET_OUTPUT,
        buffer_count: 2,
        output_window: window,
        windowed: true,
        swap_effect: SWAP_EFFECT_DISCARD,
        flags: FLAG_ALLOW_MODE_SWITCH,
    }
}

/// The window that a described surface presents to, where the surface could be
/// asked for its description.
pub fn get_window_from_swapchain(description: Result<SwapchainDescriptor, i32>) -> (window: Option<
    usize,
>)
    ensures
        window == match description {
            Ok(desc) => Some(desc.output_window),
            Err(_) => None,
        },
{
    match description {
        Ok(desc) => Some(desc.output_window),
        Err(_) => None,
    }
}

/// Builds the default description of a surface for `window`.
pub fn default_swapchain_descriptor(window: usize) -> (desc: SwapchainDescriptor)
    ensures
        desc == default_descriptor(window),
{
    SwapchainDescriptor {
        width: 0,
        height: 0,
        refresh_numerator: 60,
        refresh_denominator: 1,
        format: FORMAT_R8G8B8A8_UNORM,
        scanline_ordering: SCANLINE_ORDER_UNSPECIFIED,
        scaling: SCALING_UNSPECIFIED,
        sample_count: 1,
        sample_quality: 0,
        buffer_usage: USAGE_RENDER_TARGET_OUTPUT,
        buffer_count: 2,
        output_window: window,
        windowed: true,
        swap_effect: SWAP_EFFECT_DISCARD,
        flags: FLAG_ALLOW_MODE_SWITCH,
    }
}

/// Whether entry `i` is the first window of the enumeration that the process owns.
pub open spec fn is_first_owned(windows: Seq<TopLevelWindow>, process_id: u32, i: int) -> bool {
    &&& 0 <= i < windows.len()
    &&& windows[i].process_id == process_id
    &&& forall|j: int| 0 <= j < i ==> (#[trigger] windows[j]).process_id != process_id
}

/// Picks, from the top-level windows in the order of their enumeration, the first
/// that the process owns. A window without a handle is no window: where the first
/// owned entry has none, nothing is found.
pub fn get_process_window(windows: &Vec<TopLevelWindow>, process_id: u32) -> (found: Option<usize>)
    ensures
        match found {
            Some(handle) => handle != 0 && exists|i: int|
                is_first_owned(windows@, process_id, i) && (#[trigger] windows[i]).handle == handle,
            None => forall|i: int|
                is_first_owned(windows@, process_id, i) ==> (#[trigger] windows[i]).handle == 0,
        },
{
    let mut i: usize = 0;
    while i < windows.len()
        invariant
            i <= windows.len(),
            forall|j: int| 0 <= j < i ==> (#[trigger] windows[j]).process_id != process_id,
        decreases windows.len() - i,
    {
        if windows[i].process_id == process_id {
            if windows[i].handle == 0 {
                return None;
            }
            return Some(windows[i].handle);
        }
        i += 1;
    }
    None
}

} // verus!
