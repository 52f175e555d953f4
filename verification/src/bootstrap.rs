//! The bootstrap of a backend, one native call at a time.
//!
//! A [`Bootstrap`] says which call it waits for ([`Bootstrap::pending`]). The
//! caller makes the call and hands the answer to [`Bootstrap::step`]. Every object
//! that a call creates is held from then on, and once the last table is read or a
//! call has failed the held objects are given back, the latest first. When
//! nothing is left to do, [`Bootstrap::outcome`] holds the tables or the failure.
use crate::directx11::DirectX11Methods;
use crate::directx12::DirectX12Methods;
use crate::directx9::{device_request, DirectX9Methods};
use crate::interface::{Interface, MethodEntry};
use crate::laws::{lemma_step_keeps_wf, run};
use crate::protocol;
use crate::protocol::{Action, Event, EventView, Model, NativeObject, Phase, Stage};
use crate::swapchain_util::{
    default_swapchain_descriptor, SwapchainDescriptor, SWAP_EFFECT_FLIP_DISCARD,
};
use crate::vulkan::VulkanMethods;
use crate::{RenderEngine, ShroudError, ShroudResult};
use vstd::prelude::*;

verus! {

/// The tables that the bootstrap of a backend has collected.
#[derive(Debug, PartialEq, Eq)]
pub enum MethodTables {
    DirectX9(DirectX9Methods),
    DirectX11(DirectX11Methods),
    DirectX12(DirectX12Methods),
    Vulkan(VulkanMethods),
}

impl MethodTables {
    /// The backend that the tables belong to.
    pub open spec fn engine(&self) -> RenderEngine {
        match self {
            MethodTables::DirectX9(_) => RenderEngine::DirectX9,
            MethodTables::DirectX11(_) => RenderEngine::DirectX11,
            MethodTables::DirectX12(_) => RenderEngine::DirectX12,
            MethodTables::Vulkan(_) => RenderEngine::Vulkan,
        }
    }

    /// The tables, in the order of the backend's layout.
    pub open spec fn tables(&self) -> Seq<Seq<usize>> {
        match self {
            MethodTables::DirectX9(methods) => methods.tables(),
            MethodTables::DirectX11(methods) => methods.tables(),
            MethodTables::DirectX12(methods) => methods.tables(),
            MethodTables::Vulkan(methods) => methods.tables(),
        }
    }

    /// The backend that the tables belong to.
    pub fn render_engine(&self) -> (engine: RenderEngine)
        ensures
            engine == self.engine(),
    {
        match self {
            MethodTables::DirectX9(_) => RenderEngine::DirectX9,
            MethodTables::DirectX11(_) => RenderEngine::DirectX11,
            MethodTables::DirectX12(_) => RenderEngine::DirectX12,
            MethodTables::Vulkan(_) => RenderEngine::Vulkan,
        }
    }

    /// Lists every slot of every table with the name of its method.
    pub fn entries(&self) -> (listing: Vec<MethodEntry>)
        ensures
            self matches MethodTables::DirectX9(methods) ==> methods.listed(listing@),
            self matches MethodTables::DirectX11(methods) ==> methods.listed(listing@),
            self matches MethodTables::DirectX12(methods) ==> methods.listed(listing@),
            self matches MethodTables::Vulkan(methods) ==> methods.listed(listing@),
    {
        match self {
            MethodTables::DirectX9(methods) => methods.entries(),
            MethodTables::DirectX11(methods) => methods.entries(),
            MethodTables::DirectX12(methods) => methods.entries(),
            MethodTables::Vulkan(methods) => methods.entries(),
        }
    }
}

/// The answers as the protocol takes them.
pub open spec fn event_views(events: Seq<Event>) -> Seq<EventView> {
    Seq::new(events.len(), |i: int| events[i]@)
}

/// The tables as sequences.
pub open spec fn table_views(tables: Seq<Vec<usize>>) -> Seq<Seq<usize>> {
    Seq::new(tables.len(), |i: int| tables[i]@)
}

fn succeeded(status: i32) -> (ok: bool)
    ensures
        ok == protocol::succeeded(status),
{
    status >= 0
}

fn needs_window(engine: RenderEngine) -> (needs: bool)
    ensures
        needs == protocol::needs_window(engine),
{
    match engine {
        RenderEngine::DirectX9 | RenderEngine::DirectX11 | RenderEngine::DirectX12 => true,
        _ => false,
    }
}

fn first_stage(engine: RenderEngine) -> (stage: Option<Stage>)
    ensures
        stage == protocol::first_stage(engine),
{
    match engine {
        RenderEngine::DirectX9 => Some(Stage::Entry),
        RenderEngine::DirectX11 => Some(Stage::DeviceAndSwapchain),
        RenderEngine::DirectX12 => Some(Stage::Entry),
        _ => None,
    }
}

fn next_stage(engine: RenderEngine, stage: Stage) -> (next: Option<Stage>)
    ensures
        next == protocol::next_stage(engine, stage),
{
    match stage {
        Stage::WindowClass => Some(Stage::Window),
        Stage::Window => first_stage(engine),
        _ => match engine {
            RenderEngine::DirectX9 => match stage {
                Stage::Entry => Some(Stage::Device),
                _ => None,
            },
            RenderEngine::DirectX12 => match stage {
                Stage::Entry => Some(Stage::Adapter),
                Stage::Adapter => Some(Stage::Device),
                Stage::Device => Some(Stage::CommandQueue),
                Stage::CommandQueue => Some(Stage::CommandAllocator),
                Stage::CommandAllocator => Some(Stage::CommandList),
                Stage::CommandList => Some(Stage::Swapchain),
                _ => None,
            },
            _ => None,
        },
    }
}

fn stage_interface(engine: RenderEngine, stage: Stage) -> (interface: Option<Interface>)
    ensures
        interface == protocol::stage_interface(engine, stage),
{
    match engine {
        RenderEngine::DirectX9 => match stage {
            Stage::Device => Some(Interface::DirectX9Device),
            _ => None,
        },
        RenderEngine::DirectX11 => match stage {
            Stage::Swapchain => Some(Interface::DirectX11Swapchain),
            Stage::Device => Some(Interface::DirectX11Device),
            Stage::Context => Some(Interface::DirectX11Context),
            _ => None,
        },
        RenderEngine::DirectX12 => match stage {
            Stage::Device => Some(Interface::DirectX12Device),
            Stage::CommandQueue => Some(Interface::DirectX12CommandQueue),
            Stage::CommandAllocator => Some(Interface::DirectX12CommandAllocator),
            Stage::CommandList => Some(Interface::DirectX12CommandList),
            Stage::Swapchain => Some(Interface::DirectX12Swapchain),
            _ => None,
        },
        _ => None,
    }
}

fn next_read(engine: RenderEngine, stage: Stage) -> (next: Option<Stage>)
    ensures
        next == protocol::next_read(engine, stage),
{
    match engine {
        RenderEngine::DirectX11 => match stage {
            Stage::Swapchain => Some(Stage::Device),
            Stage::Device => Some(Stage::Context),
            _ => None,
        },
        _ => None,
    }
}

fn stage_failure(stage: Stage, status: i32) -> (error: ShroudError)
    ensures
        error == protocol::stage_failure(stage, status),
{
    match stage {
        Stage::WindowClass | Stage::Window => ShroudError::WindowUnavailable,
        Stage::Entry => ShroudError::BackendInitError(status),
        Stage::Adapter => ShroudError::AdapterEnumerationError(status),
        Stage::Device | Stage::DeviceAndSwapchain => ShroudError::DeviceCreationError(status),
        Stage::CommandQueue => ShroudError::QueueCreationError(status),
        Stage::CommandAllocator => ShroudError::AllocatorCreationError(status),
        Stage::CommandList => ShroudError::CommandListCreationError(status),
        Stage::Swapchain => ShroudError::SurfaceCreationError(status),
        Stage::Library | Stage::Context => ShroudError::ExpectationViolated(stage),
    }
}

fn stage_missing(stage: Stage) -> (error: ShroudError)
    ensures
        error == protocol::stage_missing(stage),
{
    match stage {
        Stage::WindowClass | Stage::Window => ShroudError::WindowUnavailable,
        _ => ShroudError::ExpectationViolated(stage),
    }
}

/// The description of the surface that a backend presents to.
pub fn surface_for(engine: RenderEngine, window: usize) -> (surface: SwapchainDescriptor)
    ensures
        surface == protocol::surface_for(engine, window),
{
    let defaults = default_swapchain_descriptor(window);
    match engine {
        RenderEngine::DirectX12 => SwapchainDescriptor {
            buffer_count: 2,
            swap_effect: SWAP_EFFECT_FLIP_DISCARD,
            ..defaults
        },
        _ => defaults,
    }
}

fn find_guard(guards: &Vec<NativeObject>, stage: Stage) -> (found: Option<NativeObject>)
    ensures
        found == protocol::find_guard(guards@, stage),
{
    let mut n = guards.len();
    assert(guards@.subrange(0, n as int) == guards@);
    while n > 0
        invariant
            n <= guards.len(),
            protocol::find_guard(guards@, stage) == protocol::find_guard(
                guards@.subrange(0, n as int),
                stage,
            ),
        decreases n,
    {
        let ghost held = guards@.subrange(0, n as int);
        assert(held.drop_last() == guards@.subrange(0, n - 1));
        if guards[n - 1].stage == stage {
            return Some(guards[n - 1]);
        }
        n -= 1;
    }
    None
}

/// What a bootstrap holds between two calls.
struct State {
    engine: RenderEngine,
    phase: Phase,
    guards: Vec<NativeObject>,
    tables: Vec<Vec<usize>>,
    failure: Option<ShroudError>,
    window: usize,
    library: usize,
}

impl View for State {
    type V = Model;

    closed spec fn view(&self) -> Model {
        Model {
            engine: self.engine,
            phase: self.phase,
            guards: self.guards@,
            tables: table_views(self.tables@),
            failure: self.failure,
            window: self.window,
            library: self.library,
        }
    }
}

impl State {
    fn initial(engine: RenderEngine) -> (state: State)
        ensures
            state@ == Model::initial(engine),
    {
        let supported = needs_window(engine) || engine == RenderEngine::Vulkan;
        let state = State {
            engine,
            phase: if needs_window(engine) {
                Phase::FindWindow
            } else if engine == RenderEngine::Vulkan {
                Phase::FindLibrary
            } else {
                Phase::Done
            },
            guards: Vec::new(),
            tables: Vec::new(),
            failure: if supported {
                None
            } else {
                Some(ShroudError::BackendNotFound(engine))
            },
            window: 0,
            library: 0,
        };
        assert(state@.tables == Seq::<Seq<usize>>::empty());
        state
    }

    fn unwind(self) -> (next: State)
        ensures
            next@ == self@.unwind(),
    {
        let phase = if self.guards.len() > 0 {
            Phase::Release
        } else {
            Phase::Done
        };
        State { phase, ..self }
    }

    fn fail(self, error: ShroudError) -> (next: State)
        ensures
            next@ == self@.fail(error),
    {
        State { failure: Some(error), ..self }.unwind()
    }

    fn enter(self, stage: Option<Stage>) -> (next: State)
        ensures
            next@ == self@.enter(stage),
    {
        match stage {
            Some(s) => State { phase: Phase::Create(s), ..self },
            None => self.unwind(),
        }
    }

    fn hold(self, stage: Stage, handle: Option<usize>) -> (next: State)
        ensures
            next@ == self@.hold(protocol::present(stage, handle)),
    {
        let mut next = self;
        if let Some(h) = handle {
            next.guards.push(NativeObject { stage, handle: h });
        }
        assert(next@.guards == self@.guards + protocol::present(stage, handle));
        next
    }

    fn keep(self, words: Vec<usize>) -> (next: State)
        ensures
            next@ == (Model { tables: self@.tables.push(words@), ..self@ }),
    {
        let mut next = self;
        next.tables.push(words);
        assert(next@.tables == self@.tables.push(words@));
        next
    }

    fn proceed(self, stage: Stage) -> (next: State)
        ensures
            next@ == self@.proceed(stage),
    {
        match next_read(self.engine, stage) {
            Some(s) => match find_guard(&self.guards, s) {
                Some(object) => State { phase: Phase::Read(object), ..self },
                None => self.fail(ShroudError::ExpectationViolated(s)),
            },
            None => {
                let next = next_stage(self.engine, stage);
                self.enter(next)
            },
        }
    }

    fn created(self, stage: Stage, status: i32, object: Option<usize>) -> (next: State)
        ensures
            next@ == self@.created(stage, status, object),
    {
        if !succeeded(status) {
            self.fail(stage_failure(stage, status))
        } else {
            match object {
                None => self.fail(stage_missing(stage)),
                Some(handle) => {
                    let window = if stage == Stage::Window {
                        handle
                    } else {
                        self.window
                    };
                    let held = State { window, ..self.hold(stage, Some(handle)) };
                    if stage_interface(held.engine, stage).is_some() {
                        State { phase: Phase::Read(NativeObject { stage, handle }), ..held }
                    } else {
                        let next = next_stage(held.engine, stage);
                        held.enter(next)
                    }
                },
            }
        }
    }

    fn co_created(
        self,
        status: i32,
        swapchain: Option<usize>,
        device: Option<usize>,
        context: Option<usize>,
    ) -> (next: State)
        ensures
            next@ == self@.co_created(status, swapchain, device, context),
    {
        if !succeeded(status) {
            self.fail(stage_failure(Stage::DeviceAndSwapchain, status))
        } else {
            let held = self.hold(Stage::Swapchain, swapchain).hold(Stage::Device, device).hold(
                Stage::Context,
                context,
            );
            assert(held@ == self@.hold(
                protocol::present(Stage::Swapchain, swapchain) + protocol::present(
                    Stage::Device,
                    device,
                ) + protocol::present(Stage::Context, context),
            )) by {
                assert(held@.guards == self@.guards + (protocol::present(Stage::Swapchain, swapchain)
                    + protocol::present(Stage::Device, device) + protocol::present(
                    Stage::Context,
                    context,
                )));
            }
            match swapchain {
                None => held.fail(ShroudError::ExpectationViolated(Stage::Swapchain)),
                Some(handle) => if device.is_none() {
                    held.fail(ShroudError::ExpectationViolated(Stage::Device))
                } else if context.is_none() {
                    held.fail(ShroudError::ExpectationViolated(Stage::Context))
                } else {
                    State {
                        phase: Phase::Read(NativeObject { stage: Stage::Swapchain, handle }),
                        ..held
                    }
                },
            }
        }
    }

    fn table_read(self, object: NativeObject, words: Vec<usize>) -> (next: State)
        ensures
            next@ == self@.table_read(object, words@),
    {
        match stage_interface(self.engine, object.stage) {
            Some(interface) => if words.len() == interface.slot_count() {
                self.keep(words).proceed(object.stage)
            } else {
                self.fail(ShroudError::ExpectationViolated(object.stage))
            },
            None => self.fail(ShroudError::ExpectationViolated(object.stage)),
        }
    }

    fn release(self) -> (next: State)
        ensures
            next@ == if self@.guards.len() > 0 {
                (Model { guards: self@.guards.drop_last(), ..self@ }).unwind()
            } else {
                self@.unwind()
            },
    {
        let mut next = self;
        let _ = next.guards.pop();
        next.unwind()
    }

    fn step(self, event: Event) -> (next: State)
        ensures
            next@ == self@.step(event@),
    {
        match self.phase {
            Phase::FindWindow => match event {
                Event::Found(Some(window)) => {
                    let first = first_stage(self.engine);
                    State { window, ..self }.enter(first)
                },
                Event::Found(None) => self.enter(Some(Stage::WindowClass)),
                _ => self.fail(ShroudError::ExpectationViolated(Stage::Window)),
            },
            Phase::FindLibrary => match event {
                Event::Found(Some(library)) => State { library, phase: Phase::Resolve, ..self },
                Event::Found(None) => {
                    let engine = self.engine;
                    self.fail(ShroudError::BackendNotFound(engine))
                },
                _ => self.fail(ShroudError::ExpectationViolated(Stage::Library)),
            },
            Phase::Create(stage) => match event {
                Event::Created { status, object } => if stage == Stage::DeviceAndSwapchain {
                    self.fail(ShroudError::ExpectationViolated(stage))
                } else {
                    self.created(stage, status, object)
                },
                Event::CoCreated { status, swapchain, device, context } => if stage
                    == Stage::DeviceAndSwapchain {
                    self.co_created(status, swapchain, device, context)
                } else {
                    self.fail(ShroudError::ExpectationViolated(stage))
                },
                _ => self.fail(ShroudError::ExpectationViolated(stage)),
            },
            Phase::Read(object) => match event {
                Event::Table(words) => self.table_read(object, words),
                _ => self.fail(ShroudError::ExpectationViolated(object.stage)),
            },
            Phase::Resolve => match event {
                Event::Table(words) => if words.len() == Interface::VulkanStatic.slot_count() {
                    self.keep(words).unwind()
                } else {
                    self.fail(ShroudError::ExpectationViolated(Stage::Library))
                },
                _ => self.fail(ShroudError::ExpectationViolated(Stage::Library)),
            },
            Phase::Release => self.release(),
            Phase::Done => self,
        }
    }

    fn pending(&self) -> (action: Action)
        ensures
            action == self@.pending(),
    {
        match self.phase {
            Phase::FindWindow => Action::FindWindow,
            Phase::FindLibrary => Action::FindLibrary(self.engine),
            Phase::Create(stage) => if stage == Stage::DeviceAndSwapchain || stage
                == Stage::Swapchain {
                Action::CreateSurface(stage, surface_for(self.engine, self.window))
            } else if stage == Stage::Device && self.engine == RenderEngine::DirectX9 {
                Action::CreateDevice(device_request(self.window))
            } else {
                Action::Create(stage)
            },
            Phase::Read(object) => match stage_interface(self.engine, object.stage) {
                Some(interface) => Action::ReadTable { object, slots: interface.slot_count() },
                None => Action::ReadTable { object, slots: 0 },
            },
            Phase::Resolve => Action::ResolveSymbols {
                library: self.library,
                slots: Interface::VulkanStatic.slot_count(),
            },
            Phase::Release => if self.guards.len() > 0 {
                Action::Release(self.guards[self.guards.len() - 1])
            } else {
                Action::Finished
            },
            Phase::Done => Action::Finished,
        }
    }
}

/// The bootstrap of one backend.
pub struct Bootstrap {
    state: State,
}

impl View for Bootstrap {
    type V = Model;

    closed spec fn view(&self) -> Model {
        self.state@
    }
}

impl Bootstrap {
    #[verifier::type_invariant]
    spec fn well_formed(&self) -> bool {
        self.state@.wf()
    }

    /// Begins the bootstrap of a backend. Nothing is known of how to bring up the
    /// tenth generation: its bootstrap has ended before it began, with
    /// `BackendNotFound`.
    pub fn new(engine: RenderEngine) -> (bootstrap: Bootstrap)
        ensures
            bootstrap@ == Model::initial(engine),
            bootstrap@.wf(),
    {
        Bootstrap { state: State::initial(engine) }
    }

    /// The backend that is brought up.
    pub fn engine(&self) -> (engine: RenderEngine)
        ensures
            engine == self@.engine,
    {
        self.state.engine
    }

    /// The call that the bootstrap waits for.
    pub fn pending(&self) -> (action: Action)
        ensures
            action == self@.pending(),
    {
        self.state.pending()
    }

    /// Whether nothing is left to do.
    pub fn is_done(&self) -> (done: bool)
        ensures
            done == (self@.phase == Phase::Done),
    {
        match self.state.phase {
            Phase::Done => true,
            _ => false,
        }
    }

    /// The objects that are held, in the order of their creation.
    pub fn guards(&self) -> (guards: &Vec<NativeObject>)
        ensures
            guards@ == self@.guards,
    {
        &self.state.guards
    }

    /// Takes the answer of the native layer to the pending call and moves on.
    pub fn step(self, event: Event) -> (next: Bootstrap)
        ensures
            next@ == self@.step(event@),
            next@.wf(),
    {
        proof {
            use_type_invariant(&self);
            lemma_step_keeps_wf(self@, event@);
        }
        Bootstrap { state: self.state.step(event) }
    }

    /// The bootstrap of a backend after the native layer has given `events`, one
    /// answer to each pending call, in their order.
    pub fn replay(engine: RenderEngine, events: Vec<Event>) -> (bootstrap: Bootstrap)
        ensures
            bootstrap@ == run(engine, event_views(events@)),
            bootstrap@.wf(),
    {
        let ghost answers = event_views(events@);
        let mut bootstrap = Bootstrap::new(engine);
        for event in given: events
            invariant
                given.seq() == events@,
                answers == event_views(events@),
                bootstrap@ == run(engine, answers.take(given.index() as int)),
                bootstrap@.wf(),
        {
            assert(answers.take(given.index() + 1).drop_last() == answers.take(
                given.index() as int,
            ));
            bootstrap = bootstrap.step(event);
        }
        assert(answers.take(answers.len() as int) == answers);
        bootstrap
    }

    /// How the bootstrap ended: nothing while it runs; then the failure, if a call
    /// failed, and else the tables, each as long as its interface declares.
    pub fn outcome(self) -> (outcome: Option<ShroudResult<MethodTables>>)
        ensures
            self@.outcome() is None <==> outcome is None,
            self@.outcome() matches Some(Err(error)) ==> outcome == Some(
                Err::<MethodTables, ShroudError>(error),
            ),
            self@.outcome() matches Some(Ok(tables)) ==> outcome matches Some(Ok(methods))
                && methods.engine() == self@.engine && methods.tables() == tables
                && protocol::tables_match(self@.engine, tables),
    {
        proof {
            use_type_invariant(&self);
        }
        if !self.is_done() {
            return None;
        }
        let state = self.state;
        if let Some(error) = state.failure {
            return Some(Err(error));
        }
        let mut tables = state.tables;
        let ghost collected = table_views(tables@);
        match state.engine {
            RenderEngine::DirectX9 => {
                let device = take_last(&mut tables);
                assert(collected.len() == 1 && collected[0] == device@);
                match DirectX9Methods::new(device) {
                    Some(methods) => {
                        Some(Ok(MethodTables::DirectX9(methods)))
                    },
                    None => Some(Err(ShroudError::ExpectationViolated(Stage::Device))),
                }
            },
            RenderEngine::DirectX11 => {
                let context = take_last(&mut tables);
                let device = take_last(&mut tables);
                let swapchain = take_last(&mut tables);
                assert(collected.len() == 3 && collected[0] == swapchain@ && collected[1] == device@
                    && collected[2] == context@);
                match DirectX11Methods::new(swapchain, device, context) {
                    Some(methods) => {
                        Some(Ok(MethodTables::DirectX11(methods)))
                    },
                    None => Some(Err(ShroudError::ExpectationViolated(Stage::DeviceAndSwapchain))),
                }
            },
            RenderEngine::DirectX12 => {
                let swapchain = take_last(&mut tables);
                let command_list = take_last(&mut tables);
                let command_allocator = take_last(&mut tables);
                let command_queue = take_last(&mut tables);
                let device = take_last(&mut tables);
                assert(collected.len() == 5 && collected[0] == device@ && collected[1]
                    == command_queue@ && collected[2] == command_allocator@ && collected[3]
                    == command_list@ && collected[4] == swapchain@);
                match DirectX12Methods::new(
                    device,
                    command_queue,
                    command_allocator,
                    command_list,
                    swapchain,
                ) {
                    Some(methods) => {
                        Some(Ok(MethodTables::DirectX12(methods)))
                    },
                    None => Some(Err(ShroudError::ExpectationViolated(Stage::Device))),
                }
            },
            RenderEngine::Vulkan => {
                let static_methods = take_last(&mut tables);
                assert(collected.len() == 1 && collected[0] == static_methods@);
                match VulkanMethods::new(static_methods) {
                    Some(methods) => {
                        Some(Ok(MethodTables::Vulkan(methods)))
                    },
                    None => Some(Err(ShroudError::ExpectationViolated(Stage::Library))),
                }
            },
            RenderEngine::DirectX10 => Some(Err(ShroudError::BackendNotFound(RenderEngine::DirectX10))),
        }
    }
}

/// Takes the last table out of a list of tables; an empty table where there is none.
fn take_last(tables: &mut Vec<Vec<usize>>) -> (table: Vec<usize>)
    ensures
        old(tables)@.len() > 0 ==> table == old(tables)@.last() && final(tables)@ == old(
            tables,
        )@.drop_last(),
        old(tables)@.len() == 0 ==> table@.len() == 0 && final(tables)@.len() == 0,
{
    match tables.pop() {
        Some(table) => table,
        None => Vec::new(),
    }
}

} // verus!
