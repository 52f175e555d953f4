//! The bootstrap protocol as mathematics: the stages of each backend, what the
//! bootstrap holds between two native calls, and how an answer of the native
//! layer moves it on.
use crate::directx9::{hardware_free_request, DeviceRequest};
use crate::interface::{layout, Interface};
use crate::swapchain_util::{
    default_descriptor, SwapchainDescriptor, SWAP_EFFECT_FLIP_DISCARD,
};
use crate::{RenderEngine, ShroudError};
use vstd::prelude::*;

verus! {

/// A stage of a bootstrap, named after the kind of native object that it yields.
#[derive(Debug, Clone, Copy, PartialEq, Eq, Structural)]
pub enum Stage {
    /// The loaded library of the backend.
    Library,
    /// The class of the scratch window.
    WindowClass,
    /// The scratch window.
    Window,
    /// The top-level entry object: an instance or a factory.
    Entry,
    Adapter,
    Device,
    CommandQueue,
    CommandAllocator,
    CommandList,
    Swapchain,
    /// The device context that comes with a co-created device.
    Context,
    /// The one call that creates swapchain, device and context together.
    DeviceAndSwapchain,
}

/// A native object that was created and is to be released: its kind and its address.
#[derive(Debug, Clone, Copy, PartialEq, Eq, Structural)]
pub struct NativeObject {
    pub stage: Stage,
    pub handle: usize,
}

/// What a bootstrap waits for.
#[derive(Debug, Clone, Copy, PartialEq, Eq, Structural)]
pub enum Phase {
    /// The search for a window that the process owns.
    FindWindow,
    /// The lookup of the backend's library.
    FindLibrary,
    /// The creation of a stage's object.
    Create(Stage),
    /// The read of an object's dispatch table.
    Read(NativeObject),
    /// The addresses of the library's exported functions.
    Resolve,
    /// The release of the object that was created last among those still held.
    Release,
    /// Nothing: the bootstrap has ended.
    Done,
}

/// An answer of the native layer.
#[derive(Debug, PartialEq, Eq)]
pub enum Event {
    /// A lookup ended: with a handle, or without one.
    Found(Option<usize>),
    /// A creation call returned `status` and, perhaps, an object.
    Created { status: i32, object: Option<usize> },
    /// The call that creates three objects at once returned.
    CoCreated {
        status: i32,
        swapchain: Option<usize>,
        device: Option<usize>,
        context: Option<usize>,
    },
    /// The words of a table were read.
    Table(Vec<usize>),
    /// An object was released.
    Released,
}

/// An answer of the native layer, with a table as a sequence.
pub enum EventView {
    Found(Option<usize>),
    Created { status: i32, object: Option<usize> },
    CoCreated {
        status: i32,
        swapchain: Option<usize>,
        device: Option<usize>,
        context: Option<usize>,
    },
    Table(Seq<usize>),
    Released,
}

impl View for Event {
    type V = EventView;

    open spec fn view(&self) -> EventView {
        match *self {
            Event::Found(handle) => EventView::Found(handle),
            Event::Created { status, object } => EventView::Created { status, object },
            Event::CoCreated { status, swapchain, device, context } => EventView::CoCreated {
                status,
                swapchain,
                device,
                context,
            },
            Event::Table(words) => EventView::Table(words@),
            Event::Released => EventView::Released,
        }
    }
}

/// What the native layer is asked to do next.
#[derive(Debug, Clone, Copy, PartialEq, Eq, Structural)]
pub enum Action {
    /// Look for a top-level window that the process owns.
    FindWindow,
    /// Look up the library of the backend by its name.
    FindLibrary(RenderEngine),
    /// Create the object of a stage.
    Create(Stage),
    /// Create the device of the first raster generation as requested.
    CreateDevice(DeviceRequest),
    /// Create the object of a stage that presents to the described surface.
    CreateSurface(Stage, SwapchainDescriptor),
    /// Read the dispatch table of an object, `slots` words long.
    ReadTable { object: NativeObject, slots: usize },
    /// Resolve the first `slots` exported functions of the library, by name.
    ResolveSymbols { library: usize, slots: usize },
    /// Release an object.
    Release(NativeObject),
    /// Nothing is left to do.
    Finished,
}

/// A native status that reports success.
pub open spec fn succeeded(status: i32) -> bool {
    status >= 0
}

/// Whether the backend is brought up through native objects that need a window.
pub open spec fn needs_window(engine: RenderEngine) -> bool {
    engine == RenderEngine::DirectX9 || engine == RenderEngine::DirectX11 || engine
        == RenderEngine::DirectX12
}

/// The first stage of a backend once it has its window.
pub open spec fn first_stage(engine: RenderEngine) -> Option<Stage> {
    match engine {
        RenderEngine::DirectX9 => Some(Stage::Entry),
        RenderEngine::DirectX11 => Some(Stage::DeviceAndSwapchain),
        RenderEngine::DirectX12 => Some(Stage::Entry),
        _ => None,
    }
}

/// The stage that follows `stage` in the creation order of a backend.
pub open spec fn next_stage(engine: RenderEngine, stage: Stage) -> Option<Stage> {
    match stage {
        Stage::WindowClass => Some(Stage::Window),
        Stage::Window => first_stage(engine),
        _ => match engine {
            RenderEngine::DirectX9 => match stage {
                Stage::Entry => Some(Stage::Device),
                _ => None,
            },
            RenderEngine::DirectX12 => match stage {
                Stage::Entry => Some(Stage::Adapter),
                Stage::Adapter => Some(Stage::Device),
                Stage::Device => Some(Stage::CommandQueue),
                Stage::CommandQueue => Some(Stage::CommandAllocator),
                Stage::CommandAllocator => Some(Stage::CommandList),
                Stage::CommandList => Some(Stage::Swapchain),
                _ => None,
            },
            _ => None,
        },
    }
}

/// The interface whose layout an object of `stage` has, where it is known.
pub open spec fn stage_interface(engine: RenderEngine, stage: Stage) -> Option<Interface> {
    match engine {
        RenderEngine::DirectX9 => match stage {
            Stage::Device => Some(Interface::DirectX9Device),
            _ => None,
        },
        RenderEngine::DirectX11 => match stage {
            Stage::Swapchain => Some(Interface::DirectX11Swapchain),
            Stage::Device => Some(Interface::DirectX11Device),
            Stage::Context => Some(Interface::DirectX11Context),
            _ => None,
        },
        RenderEngine::DirectX12 => match stage {
            Stage::Device => Some(Interface::DirectX12Device),
            Stage::CommandQueue => Some(Interface::DirectX12CommandQueue),
            Stage::CommandAllocator => Some(Interface::DirectX12CommandAllocator),
            Stage::CommandList => Some(Interface::DirectX12CommandList),
            Stage::Swapchain => Some(Interface::DirectX12Swapchain),
            _ => None,
        },
        _ => None,
    }
}

/// The object that is read after the one of `stage`, where one call created several.
pub open spec fn next_read(engine: RenderEngine, stage: Stage) -> Option<Stage> {
    match engine {
        RenderEngine::DirectX11 => match stage {
            Stage::Swapchain => Some(Stage::Device),
            Stage::Device => Some(Stage::Context),
            _ => None,
        },
        _ => None,
    }
}

/// How many tables have been read when `stage` is about to be created or read.
pub open spec fn tables_before(engine: RenderEngine, stage: Stage) -> nat {
    match engine {
        RenderEngine::DirectX11 => match stage {
            Stage::Device => 1,
            Stage::Context => 2,
            _ => 0,
        },
        RenderEngine::DirectX12 => match stage {
            Stage::CommandQueue => 1,
            Stage::CommandAllocator => 2,
            Stage::CommandList => 3,
            Stage::Swapchain => 4,
            _ => 0,
        },
        _ => 0,
    }
}

/// A bound on the answers that a bootstrap takes from the read of the table of
/// `stage` on, the releases of what it then holds not counted.
pub open spec fn reads_from(engine: RenderEngine, stage: Stage) -> nat {
    match engine {
        RenderEngine::DirectX11 => match stage {
            Stage::Swapchain => 3,
            Stage::Device => 2,
            _ => 1,
        },
        RenderEngine::DirectX12 => match stage {
            Stage::Device => 13,
            Stage::CommandQueue => 10,
            Stage::CommandAllocator => 7,
            Stage::CommandList => 4,
            _ => 1,
        },
        _ => 1,
    }
}

/// A bound on the answers that a bootstrap takes from the creation of `stage` on,
/// the releases of what it holds before that creation not counted.
pub open spec fn calls_from(engine: RenderEngine, stage: Stage) -> nat {
    match stage {
        Stage::WindowClass => calls_from_first(engine) + 4,
        Stage::Window => calls_from_first(engine) + 2,
        Stage::DeviceAndSwapchain => 7,
        Stage::Entry => if engine == RenderEngine::DirectX12 {
            19
        } else {
            5
        },
        Stage::Adapter => 17,
        Stage::Device => if engine == RenderEngine::DirectX12 {
            15
        } else {
            3
        },
        Stage::CommandQueue => 12,
        Stage::CommandAllocator => 9,
        Stage::CommandList => 6,
        Stage::Swapchain => 3,
        Stage::Library | Stage::Context => 1,
    }
}

/// A bound on the answers that a bootstrap takes once it has its window.
pub open spec fn calls_from_first(engine: RenderEngine) -> nat {
    match engine {
        RenderEngine::DirectX9 => 5,
        RenderEngine::DirectX11 => 7,
        RenderEngine::DirectX12 => 19,
        _ => 0,
    }
}

/// Whether the backend has a creation call for `stage`.
pub open spec fn creates(engine: RenderEngine, stage: Stage) -> bool {
    match stage {
        Stage::WindowClass | Stage::Window => needs_window(engine),
        Stage::Entry | Stage::Device => engine == RenderEngine::DirectX9 || engine
            == RenderEngine::DirectX12,
        Stage::Adapter
        | Stage::CommandQueue
        | Stage::CommandAllocator
        | Stage::CommandList
        | Stage::Swapchain => engine == RenderEngine::DirectX12,
        Stage::DeviceAndSwapchain => engine == RenderEngine::DirectX11,
        Stage::Library | Stage::Context => false,
    }
}

/// The error for a creation call of `stage` that returned the failure `status`.
pub open spec fn stage_failure(stage: Stage, status: i32) -> ShroudError {
    match stage {
        Stage::WindowClass | Stage::Window => ShroudError::WindowUnavailable,
        Stage::Entry => ShroudError::BackendInitError(status),
        Stage::Adapter => ShroudError::AdapterEnumerationError(status),
        Stage::Device | Stage::DeviceAndSwapchain => ShroudError::DeviceCreationError(status),
        Stage::CommandQueue => ShroudError::QueueCreationError(status),
        Stage::CommandAllocator => ShroudError::AllocatorCreationError(status),
        Stage::CommandList => ShroudError::CommandListCreationError(status),
        Stage::Swapchain => ShroudError::SurfaceCreationError(status),
        Stage::Library | Stage::Context => ShroudError::ExpectationViolated(stage),
    }
}

/// The error for a creation call of `stage` that reported success without an object.
pub open spec fn stage_missing(stage: Stage) -> ShroudError {
    match stage {
        Stage::WindowClass | Stage::Window => ShroudError::WindowUnavailable,
        _ => ShroudError::ExpectationViolated(stage),
    }
}

/// The surface that a backend presents to: the defaults, but for the explicit
/// generation, which flips between two buffers.
pub open spec fn surface_for(engine: RenderEngine, window: usize) -> SwapchainDescriptor {
    if engine == RenderEngine::DirectX12 {
        SwapchainDescriptor {
            buffer_count: 2,
            swap_effect: SWAP_EFFECT_FLIP_DISCARD,
            ..default_descriptor(window)
        }
    } else {
        default_descriptor(window)
    }
}

/// The object of `stage` that was taken hold of last, if one is held.
pub open spec fn find_guard(guards: Seq<NativeObject>, stage: Stage) -> Option<NativeObject>
    decreases guards.len(),
{
    if guards.len() == 0 {
        None
    } else if guards.last().stage == stage {
        Some(guards.last())
    } else {
        find_guard(guards.drop_last(), stage)
    }
}

/// The one object of `stage` at `handle`, or nothing where the call left it out.
pub open spec fn present(stage: Stage, handle: Option<usize>) -> Seq<NativeObject> {
    match handle {
        Some(h) => seq![NativeObject { stage, handle: h }],
        None => Seq::empty(),
    }
}

/// Whether `tables` are the tables of a backend's interfaces, in the order of
/// its layout and each as long as its interface declares.
pub open spec fn tables_match(engine: RenderEngine, tables: Seq<Seq<usize>>) -> bool {
    &&& tables.len() == layout(engine).len()
    &&& forall|i: int| 0 <= i < tables.len() ==> (#[trigger] tables[i]).len() == layout(engine)[i].slots()
}

/// A bootstrap between two native calls.
pub struct Model {
    pub engine: RenderEngine,
    pub phase: Phase,
    /// The objects that are held, in the order of their creation.
    pub guards: Seq<NativeObject>,
    /// The tables read so far, in the order of the backend's layout.
    pub tables: Seq<Seq<usize>>,
    /// The first failure, which ends the creations.
    pub failure: Option<ShroudError>,
    pub window: usize,
    pub library: usize,
}

impl Model {
    /// A bootstrap that has not made its first call.
    pub open spec fn initial(engine: RenderEngine) -> Model {
        Model {
            engine,
            phase: if needs_window(engine) {
                Phase::FindWindow
            } else if engine == RenderEngine::Vulkan {
                Phase::FindLibrary
            } else {
                Phase::Done
            },
            guards: Seq::empty(),
            tables: Seq::empty(),
            failure: if needs_window(engine) || engine == RenderEngine::Vulkan {
                None
            } else {
                Some(ShroudError::BackendNotFound(engine))
            },
            window: 0,
            library: 0,
        }
    }

    /// Turns to the release of what is held, or ends where nothing is.
    pub open spec fn unwind(self) -> Model {
        Model { phase: if self.guards.len() > 0 { Phase::Release } else { Phase::Done }, ..self }
    }

    /// Records a failure and turns to the release of what is held.
    pub open spec fn fail(self, error: ShroudError) -> Model {
        Model { failure: Some(error), ..self }.unwind()
    }

    /// Goes on to the creation of `stage`, or ends the creations where none is left.
    pub open spec fn enter(self, stage: Option<Stage>) -> Model {
        match stage {
            Some(s) => Model { phase: Phase::Create(s), ..self },
            None => self.unwind(),
        }
    }

    /// Takes hold of objects.
    pub open spec fn hold(self, objects: Seq<NativeObject>) -> Model {
        Model { guards: self.guards + objects, ..self }
    }

    /// Goes on after the table of `stage` was read, or after `stage` proved to have none.
    pub open spec fn proceed(self, stage: Stage) -> Model {
        match next_read(self.engine, stage) {
            Some(s) => match find_guard(self.guards, s) {
                Some(object) => Model { phase: Phase::Read(object), ..self },
                None => self.fail(ShroudError::ExpectationViolated(s)),
            },
            None => self.enter(next_stage(self.engine, stage)),
        }
    }

    /// The answer to the creation call of one object.
    pub open spec fn created(self, stage: Stage, status: i32, object: Option<usize>) -> Model {
        if !succeeded(status) {
            self.fail(stage_failure(stage, status))
        } else {
            match object {
                None => self.fail(stage_missing(stage)),
                Some(handle) => {
                    let held = Model {
                        window: if stage == Stage::Window { handle } else { self.window },
                        ..self.hold(seq![NativeObject { stage, handle }])
                    };
                    if stage_interface(self.engine, stage) is Some {
                        Model { phase: Phase::Read(NativeObject { stage, handle }), ..held }
                    } else {
                        held.enter(next_stage(self.engine, stage))
                    }
                },
            }
        }
    }

    /// The answer to the call that creates swapchain, device and context at once.
    pub open spec fn co_created(
        self,
        status: i32,
        swapchain: Option<usize>,
        device: Option<usize>,
        context: Option<usize>,
    ) -> Model {
        if !succeeded(status) {
            self.fail(stage_failure(Stage::DeviceAndSwapchain, status))
        } else {
            let held = self.hold(
                present(Stage::Swapchain, swapchain) + present(Stage::Device, device) + present(
                    Stage::Context,
                    context,
                ),
            );
            if swapchain is None {
                held.fail(ShroudError::ExpectationViolated(Stage::Swapchain))
            } else if device is None {
                held.fail(ShroudError::ExpectationViolated(Stage::Device))
            } else if context is None {
                held.fail(ShroudError::ExpectationViolated(Stage::Context))
            } else {
                Model {
                    phase: Phase::Read(
                        NativeObject { stage: Stage::Swapchain, handle: swapchain.unwrap() },
                    ),
                    ..held
                }
            }
        }
    }

    /// The answer to the read of `object`'s table.
    pub open spec fn table_read(self, object: NativeObject, words: Seq<usize>) -> Model {
        match stage_interface(self.engine, object.stage) {
            Some(interface) => if words.len() == interface.slots() {
                Model { tables: self.tables.push(words), ..self }.proceed(object.stage)
            } else {
                self.fail(ShroudError::ExpectationViolated(object.stage))
            },
            None => self.fail(ShroudError::ExpectationViolated(object.stage)),
        }
    }

    /// The bootstrap after the native layer has answered the pending call with `event`.
    ///
    /// An answer of another kind than the call asks for counts as a call that did
    /// not keep its promise. While objects are released every answer counts as
    /// the release: a release cannot fail.
    pub open spec fn step(self, event: EventView) -> Model {
        match self.phase {
            Phase::FindWindow => match event {
                EventView::Found(Some(window)) => Model { window, ..self }.enter(
                    first_stage(self.engine),
                ),
                EventView::Found(None) => self.enter(Some(Stage::WindowClass)),
                _ => self.fail(ShroudError::ExpectationViolated(Stage::Window)),
            },
            Phase::FindLibrary => match event {
                EventView::Found(Some(library)) => Model { library, phase: Phase::Resolve, ..self },
                EventView::Found(None) => self.fail(ShroudError::BackendNotFound(self.engine)),
                _ => self.fail(ShroudError::ExpectationViolated(Stage::Library)),
            },
            Phase::Create(stage) => match event {
                EventView::Created { status, object } => if stage == Stage::DeviceAndSwapchain {
                    self.fail(ShroudError::ExpectationViolated(stage))
                } else {
                    self.created(stage, status, object)
                },
                EventView::CoCreated { status, swapchain, device, context } => if stage
                    == Stage::DeviceAndSwapchain {
                    self.co_created(status, swapchain, device, context)
                } else {
                    self.fail(ShroudError::ExpectationViolated(stage))
                },
                _ => self.fail(ShroudError::ExpectationViolated(stage)),
            },
            Phase::Read(object) => match event {
                EventView::Table(words) => self.table_read(object, words),
                _ => self.fail(ShroudError::ExpectationViolated(object.stage)),
            },
            Phase::Resolve => match event {
                EventView::Table(words) => if words.len() == Interface::VulkanStatic.slots() {
                    Model { tables: self.tables.push(words), ..self }.unwind()
                } else {
                    self.fail(ShroudError::ExpectationViolated(Stage::Library))
                },
                _ => self.fail(ShroudError::ExpectationViolated(Stage::Library)),
            },
            Phase::Release => if self.guards.len() > 0 {
                Model { guards: self.guards.drop_last(), ..self }.unwind()
            } else {
                self.unwind()
            },
            Phase::Done => self,
        }
    }

    /// The bootstrap after the native layer has given `events`, one answer to each
    /// pending call.
    pub open spec fn after(self, events: Seq<EventView>) -> Model
        decreases events.len(),
    {
        if events.len() == 0 {
            self
        } else {
            self.after(events.drop_last()).step(events.last())
        }
    }

    /// The call that the bootstrap waits for.
    pub open spec fn pending(self) -> Action {
        match self.phase {
            Phase::FindWindow => Action::FindWindow,
            Phase::FindLibrary => Action::FindLibrary(self.engine),
            Phase::Create(stage) => if stage == Stage::DeviceAndSwapchain || stage
                == Stage::Swapchain {
                Action::CreateSurface(stage, surface_for(self.engine, self.window))
            } else if stage == Stage::Device && self.engine == RenderEngine::DirectX9 {
                Action::CreateDevice(hardware_free_request(self.window))
            } else {
                Action::Create(stage)
            },
            Phase::Read(object) => match stage_interface(self.engine, object.stage) {
                Some(interface) => Action::ReadTable { object, slots: interface.slots() as usize },
                None => Action::ReadTable { object, slots: 0 },
            },
            Phase::Resolve => Action::ResolveSymbols {
                library: self.library,
                slots: Interface::VulkanStatic.slots() as usize,
            },
            Phase::Release => if self.guards.len() > 0 {
                Action::Release(self.guards.last())
            } else {
                Action::Finished
            },
            Phase::Done => Action::Finished,
        }
    }

    /// How the bootstrap ended: nothing while it runs, then the tables or the first failure.
    pub open spec fn outcome(self) -> Option<Result<Seq<Seq<usize>>, ShroudError>> {
        if self.phase != Phase::Done {
            None
        } else {
            match self.failure {
                Some(error) => Some(Err(error)),
                None => Some(Ok(self.tables)),
            }
        }
    }

    /// A bound on the answers that the bootstrap still takes before it has ended:
    /// one for each object that is held and is to be released, and for each call
    /// that may still come one more, and another where the call creates an object.
    pub open spec fn remaining(self) -> nat {
        match self.phase {
            Phase::Done => 0,
            Phase::Release => self.guards.len(),
            Phase::FindWindow => self.guards.len() + calls_from(self.engine, Stage::WindowClass) + 1,
            Phase::FindLibrary => self.guards.len() + 2,
            Phase::Resolve => self.guards.len() + 1,
            Phase::Create(stage) => self.guards.len() + calls_from(self.engine, stage),
            Phase::Read(object) => self.guards.len() + reads_from(self.engine, object.stage),
        }
    }

    /// What holds of a bootstrap at every moment.
    pub open spec fn wf(self) -> bool {
        &&& needs_window(self.engine) || self.engine == RenderEngine::Vulkan || self.failure is Some
        &&& self.tables.len() <= layout(self.engine).len()
        &&& forall|i: int|
            0 <= i < self.tables.len() ==> (#[trigger] self.tables[i]).len() == layout(
                self.engine,
            )[i].slots()
        &&& match self.phase {
            Phase::FindWindow => needs_window(self.engine) && self.failure is None
                && self.tables.len() == 0 && self.guards.len() == 0,
            Phase::FindLibrary => self.engine == RenderEngine::Vulkan && self.failure is None
                && self.tables.len() == 0 && self.guards.len() == 0,
            Phase::Create(stage) => creates(self.engine, stage) && self.failure is None
                && self.tables.len() == tables_before(self.engine, stage),
            Phase::Read(object) => stage_interface(self.engine, object.stage) is Some
                && self.failure is None && self.tables.len() == tables_before(
                self.engine,
                object.stage,
            ),
            Phase::Resolve => self.engine == RenderEngine::Vulkan && self.failure is None
                && self.tables.len() == 0 && self.guards.len() == 0,
            Phase::Release => self.guards.len() > 0 && (self.failure is None
                ==> self.tables.len() == layout(self.engine).len()),
            Phase::Done => self.guards.len() == 0 && (self.failure is None
                ==> self.tables.len() == layout(self.engine).len()),
        }
    }
}

} // verus!
