//! Locating a graphics backend inside the running process and collecting the
//! dispatch tables of the interfaces that a throwaway rendering context exposes.
//!
//! The native calls themselves are made by the caller. This library decides which
//! call comes next, what is handed to it, which objects are held and in what order
//! they are given back, and it keeps the layout of every interface: how many slots
//! its table has and what each slot is called.
use vstd::prelude::*;

pub mod bootstrap;
pub mod directx11;
pub mod directx12;
pub mod directx9;
pub mod interface;
pub mod laws;
pub mod protocol;
pub mod swapchain_util;
pub mod vmt;
pub mod vulkan;

use crate::protocol::Stage;

verus! {

/// The graphics backends that can be looked for.
#[derive(Debug, Clone, Copy, PartialEq, Eq, Structural)]
pub enum RenderEngine {
    DirectX9,
    DirectX10,
    DirectX11,
    DirectX12,
    Vulkan,
}

/// Why a backend could not be found or its context could not be brought up.
///
/// The variants that stand for a failed native call carry the status that the
/// call returned.
#[derive(Debug, Clone, Copy, PartialEq, Eq, Structural)]
pub enum ShroudError {
    /// The library of the backend is not loaded, or nothing is known of how to
    /// bring the backend up.
    BackendNotFound(RenderEngine),
    /// The process owns no window and none could be created.
    WindowUnavailable,
    BackendInitError(i32),
    AdapterEnumerationError(i32),
    DeviceCreationError(i32),
    QueueCreationError(i32),
    AllocatorCreationError(i32),
    CommandListCreationError(i32),
    SurfaceCreationError(i32),
    /// A native call reported success and did not hand over what it promised.
    ExpectationViolated(Stage),
}

pub type ShroudResult<T> = Result<T, ShroudError>;

impl RenderEngine {
    /// How many backends there are.
    pub const COUNT: usize = 5;

    /// The place of the backend in the order of probing: a lower rank is tried first.
    pub open spec fn rank(self) -> nat {
        match self {
            RenderEngine::DirectX9 => 0,
            RenderEngine::DirectX10 => 1,
            RenderEngine::DirectX11 => 2,
            RenderEngine::DirectX12 => 3,
            RenderEngine::Vulkan => 4,
        }
    }

    /// The null-terminated name of the library that the backend lives in.
    pub open spec fn library(self) -> Seq<char> {
        match self {
            RenderEngine::DirectX9 => "d3d9.dll\0"@,
            RenderEngine::DirectX10 => "d3d10.dll\0"@,
            RenderEngine::DirectX11 => "d3d11.dll\0"@,
            RenderEngine::DirectX12 => "d3d12.dll\0"@,
            RenderEngine::Vulkan => "vulkan-1.dll\0"@,
        }
    }

    /// The backend with the given rank.
    pub fn from_rank(rank: usize) -> (engine: Option<RenderEngine>)
        ensures
            engine is Some <==> rank < Self::COUNT,
            engine matches Some(e) ==> e.rank() == rank,
    {
        match rank {
            0 => Some(RenderEngine::DirectX9),
            1 => Some(RenderEngine::DirectX10),
            2 => Some(RenderEngine::DirectX11),
            3 => Some(RenderEngine::DirectX12),
            4 => Some(RenderEngine::Vulkan),
            _ => None,
        }
    }

    /// Turns the answer of a library lookup into the handle, or into the error
    /// that names the backend whose library is not loaded.
    pub fn get_render_engine_handle(render_engine: &RenderEngine, found: Option<usize>) -> (handle:
        ShroudResult<usize>)
        ensures
            handle == match found {
                Some(h) => Ok::<usize, ShroudError>(h),
                None => Err(ShroudError::BackendNotFound(*render_engine)),
            },
    {
        match found {
            Some(h) => Ok(h),
            None => Err(ShroudError::BackendNotFound(*render_engine)),
        }
    }

    /// The null-terminated name of the library that the backend lives in.
    pub fn dll_name(entry: &RenderEngine) -> (name: &'static str)
        ensures
            name@ == entry.library(),
    {
        match entry {
            RenderEngine::DirectX9 => "d3d9.dll\0",
            RenderEngine::DirectX10 => "d3d10.dll\0",
            RenderEngine::DirectX11 => "d3d11.dll\0",
            RenderEngine::DirectX12 => "d3d12.dll\0",
            RenderEngine::Vulkan => "vulkan-1.dll\0",
        }
    }
}

impl ShroudError {
    /// The native status that the error carries, where it carries one.
    pub open spec fn status(self) -> Option<i32> {
        match self {
            ShroudError::BackendInitError(code) => Some(code),
            ShroudError::AdapterEnumerationError(code) => Some(code),
            ShroudError::DeviceCreationError(code) => Some(code),
            ShroudError::QueueCreationError(code) => Some(code),
            ShroudError::AllocatorCreationError(code) => Some(code),
            ShroudError::CommandListCreationError(code) => Some(code),
            ShroudError::SurfaceCreationError(code) => Some(code),
            _ => None,
        }
    }

    /// The native status that the error carries, where it carries one.
    pub fn code(&self) -> (code: Option<i32>)
        ensures
            code == self.status(),
    {
        match self {
            ShroudError::BackendInitError(code) => Some(*code),
            ShroudError::AdapterEnumerationError(code) => Some(*code),
            ShroudError::DeviceCreationError(code) => Some(*code),
            ShroudError::QueueCreationError(code) => Some(*code),
            ShroudError::AllocatorCreationError(code) => Some(*code),
            ShroudError::CommandListCreationError(code) => Some(*code),
            ShroudError::SurfaceCreationError(code) => Some(*code),
            _ => None,
        }
    }
}

/// Whether the lookup of a backend's library, listed by rank, came back with a handle.
pub open spec fn is_loaded(handles: Seq<Option<usize>>, engine: RenderEngine) -> bool {
    engine.rank() < handles.len() && handles[engine.rank() as int] is Some
}

/// Picks the backend that the process has loaded: the one of lowest rank whose
/// library lookup gave a handle. `handles` holds the lookups' answers by rank; a
/// backend that the list is too short for counts as not loaded.
pub fn detect_render_engine(handles: &Vec<Option<usize>>) -> (found: Option<RenderEngine>)
    ensures
        found matches Some(engine) ==> is_loaded(handles@, engine) && forall|other: RenderEngine|
            is_loaded(handles@, other) ==> engine.rank() <= other.rank(),
        found is None ==> forall|other: RenderEngine| !is_loaded(handles@, other),
{
    let mut rank: usize = 0;
    while rank < RenderEngine::COUNT && rank < handles.len()
        invariant
            rank <= RenderEngine::COUNT,
            rank <= handles.len(),
            forall|other: RenderEngine| other.rank() < rank ==> !is_loaded(handles@, other),
        decreases RenderEngine::COUNT - rank,
    {
        if let Some(engine) = RenderEngine::from_rank(rank) {
            if RenderEngine::get_render_engine_handle(&engine, handles[rank]).is_ok() {
                return Some(engine);
            }
        }
        rank += 1;
    }
    None
}

} // verus!
