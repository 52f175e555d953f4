//! What holds of every bootstrap, whatever the native layer answers.
use crate::protocol::{
    find_guard, present, succeeded, tables_match, EventView, Model, NativeObject, Phase, Stage,
};
use crate::RenderEngine;
use vstd::prelude::*;

verus! {

/// The bootstrap of `engine` after the native layer has given `events`, one
/// answer to each pending call.
pub open spec fn run(engine: RenderEngine, events: Seq<EventView>) -> Model {
    Model::initial(engine).after(events)
}

/// The objects that the native layer created in answer to `event`: those of a
/// creation call that was pending and reported success.
pub open spec fn acquired(model: Model, event: EventView) -> Seq<NativeObject> {
    match model.phase {
        Phase::Create(stage) => match event {
            EventView::Created { status, object } => if succeeded(status) && stage
                != Stage::DeviceAndSwapchain {
                present(stage, object)
            } else {
                Seq::empty()
            },
            EventView::CoCreated { status, swapchain, device, context } => if succeeded(status)
                && stage == Stage::DeviceAndSwapchain {
                present(Stage::Swapchain, swapchain) + present(Stage::Device, device) + present(
                    Stage::Context,
                    context,
                )
            } else {
                Seq::empty()
            },
            _ => Seq::empty(),
        },
        _ => Seq::empty(),
    }
}

/// The object whose release is pending, and which the next answer so gives back.
pub open spec fn given_back(model: Model) -> Seq<NativeObject> {
    if model.phase == Phase::Release && model.guards.len() > 0 {
        seq![model.guards.last()]
    } else {
        Seq::empty()
    }
}

/// All objects that were created in the course of `events`, in the order of their creation.
pub open spec fn created(engine: RenderEngine, events: Seq<EventView>) -> Seq<NativeObject>
    decreases events.len(),
{
    if events.len() == 0 {
        Seq::empty()
    } else {
        created(engine, events.drop_last()) + acquired(
            run(engine, events.drop_last()),
            events.last(),
        )
    }
}

/// All objects that were released in the course of `events`, in the order of their release.
pub open spec fn released(engine: RenderEngine, events: Seq<EventView>) -> Seq<NativeObject>
    decreases events.len(),
{
    if events.len() == 0 {
        Seq::empty()
    } else {
        released(engine, events.drop_last()) + given_back(run(engine, events.drop_last()))
    }
}

/// A bootstrap is well formed before its first call.
pub proof fn lemma_initial_wf(engine: RenderEngine)
    ensures
        Model::initial(engine).wf(),
{
}

proof fn lemma_found_guard(guards: Seq<NativeObject>, stage: Stage)
    ensures
        find_guard(guards, stage) matches Some(object) ==> object.stage == stage,
    decreases guards.len(),
{
    if guards.len() > 0 && guards.last().stage != stage {
        lemma_found_guard(guards.drop_last(), stage);
    }
}

/// An answer of the native layer leaves a well-formed bootstrap well formed.
pub proof fn lemma_step_keeps_wf(model: Model, event: EventView)
    requires
        model.wf(),
    ensures
        model.step(event).wf(),
{
    match model.phase {
        Phase::Read(object) => {
            lemma_found_guard(model.guards, Stage::Device);
            lemma_found_guard(model.guards, Stage::Context);
        },
        _ => {},
    }
}

/// However the native layer answers, the bootstrap stays well formed.
pub proof fn lemma_run_wf(engine: RenderEngine, events: Seq<EventView>)
    ensures
        run(engine, events).wf(),
    decreases events.len(),
{
    if events.len() == 0 {
        lemma_initial_wf(engine);
    } else {
        lemma_run_wf(engine, events.drop_last());
        lemma_step_keeps_wf(run(engine, events.drop_last()), events.last());
    }
}

/// A bootstrap that ends well has read one table for each interface of its
/// backend's layout, and each table is exactly as long as the interface declares:
/// it never ends with a table of another length.
pub proof fn lemma_tables_are_complete(engine: RenderEngine, events: Seq<EventView>)
    ensures
        run(engine, events).outcome() matches Some(Ok(tables)) ==> tables_match(engine, tables),
{
    lemma_run_wf(engine, events);
    lemma_engine_is_kept(engine, events);
}

/// A bootstrap never changes its backend.
pub proof fn lemma_engine_is_kept(engine: RenderEngine, events: Seq<EventView>)
    ensures
        run(engine, events).engine == engine,
    decreases events.len(),
{
    if events.len() > 0 {
        lemma_engine_is_kept(engine, events.drop_last());
    }
}

/// What an answer does to the held objects: while objects are released it takes
/// the latest away, and otherwise it adds what the native layer created.
pub proof fn lemma_step_guards(model: Model, event: EventView)
    ensures
        model.phase == Phase::Release && model.guards.len() > 0 ==> model.step(event).guards
            == model.guards.drop_last(),
        !(model.phase == Phase::Release && model.guards.len() > 0) ==> model.step(event).guards
            == model.guards + acquired(model, event),
{
}

/// Once the release of the held objects has begun, nothing is created any more.
pub proof fn lemma_no_creation_after_release(engine: RenderEngine, events: Seq<EventView>)
    ensures
        released(engine, events).len() > 0 ==> run(engine, events).phase == Phase::Release || run(
            engine,
            events,
        ).phase == Phase::Done,
    decreases events.len(),
{
    if events.len() > 0 {
        lemma_no_creation_after_release(engine, events.drop_last());
        lemma_run_wf(engine, events.drop_last());
    }
}

/// Every object that was created is held or was released, and the releases came
/// in the reverse of the order of creation.
pub proof fn lemma_created_is_held_or_released(engine: RenderEngine, events: Seq<EventView>)
    ensures
        created(engine, events) == run(engine, events).guards + released(engine, events).reverse(),
    decreases events.len(),
{
    if events.len() > 0 {
        lemma_created_is_held_or_released(engine, events.drop_last());
        lemma_no_creation_after_release(engine, events.drop_last());
        lemma_step_guards(run(engine, events.drop_last()), events.last());
    }
}

/// When a bootstrap has ended, with the tables or with a failure, every object
/// that was created has been released exactly once: there are as many releases as
/// creations, and the releases came in the exact reverse of the creations.
pub proof fn lemma_teardown_reverses_creation(engine: RenderEngine, events: Seq<EventView>)
    requires
        run(engine, events).phase == Phase::Done,
    ensures
        released(engine, events) == created(engine, events).reverse(),
        released(engine, events).len() == created(engine, events).len(),
        run(engine, events).guards.len() == 0,
{
    lemma_run_wf(engine, events);
    lemma_created_is_held_or_released(engine, events);
}

/// The first failure ends the creations at once and is the one that is reported:
/// after it only releases are asked for, and no later answer changes it.
pub proof fn lemma_first_failure_is_kept(model: Model, event: EventView)
    requires
        model.wf(),
        model.failure is Some,
    ensures
        model.pending() is Release || model.pending() is Finished,
        model.step(event).failure == model.failure,
        acquired(model, event).len() == 0,
{
}

/// Every answer brings a running bootstrap nearer to its end.
pub proof fn lemma_step_makes_progress(model: Model, event: EventView)
    requires
        model.wf(),
        model.phase != Phase::Done,
    ensures
        model.step(event).remaining() < model.remaining(),
{
    match model.phase {
        Phase::Read(object) => {
            lemma_found_guard(model.guards, Stage::Device);
            lemma_found_guard(model.guards, Stage::Context);
        },
        _ => {},
    }
}

/// After `events` the bootstrap is as much nearer to its end as there were
/// answers, or it has ended.
pub proof fn lemma_progress(model: Model, events: Seq<EventView>)
    requires
        model.wf(),
    ensures
        model.after(events).wf(),
        model.after(events).phase == Phase::Done || model.after(events).remaining() + events.len()
            <= model.remaining(),
    decreases events.len(),
{
    if events.len() > 0 {
        let before = model.after(events.drop_last());
        lemma_progress(model, events.drop_last());
        lemma_step_keeps_wf(before, events.last());
        if before.phase != Phase::Done {
            lemma_step_makes_progress(before, events.last());
        }
    }
}

/// No bootstrap runs on for ever: whatever the native layer answers, and however
/// a call fails, after at most `remaining` answers the bootstrap has ended and
/// holds no object.
pub proof fn lemma_bootstrap_ends(engine: RenderEngine, events: Seq<EventView>)
    requires
        events.len() >= Model::initial(engine).remaining(),
    ensures
        run(engine, events).phase == Phase::Done,
        run(engine, events).guards.len() == 0,
        run(engine, events).outcome() is Some,
{
    lemma_initial_wf(engine);
    lemma_progress(Model::initial(engine), events);
}

/// Once the release has begun, it ends after exactly as many answers as objects
/// are held, whatever the answers are, and it changes neither the tables nor the
/// failure.
pub proof fn lemma_release_completes(model: Model, events: Seq<EventView>)
    requires
        model.wf(),
        model.phase == Phase::Release,
        events.len() <= model.guards.len(),
    ensures
        model.after(events).guards == model.guards.take(model.guards.len() - events.len()),
        model.after(events).phase == if events.len() < model.guards.len() {
            Phase::Release
        } else {
            Phase::Done
        },
        model.after(events).tables == model.tables,
        model.after(events).failure == model.failure,
    decreases events.len(),
{
    if events.len() > 0 {
        lemma_release_completes(model, events.drop_last());
    }
}

/// Whether two lists of tables have as many tables, and table by table as many slots.
pub open spec fn same_lengths(a: Seq<Seq<usize>>, b: Seq<Seq<usize>>) -> bool {
    &&& a.len() == b.len()
    &&& forall|i: int| 0 <= i < a.len() ==> (#[trigger] a[i]).len() == b[i].len()
}

/// Two bootstraps of one backend that both end well have tables of the same
/// lengths, whatever addresses the native layer answered with; and where it
/// answered the same, they end the same.
pub proof fn lemma_repeated_bootstrap_agrees(
    engine: RenderEngine,
    first: Seq<EventView>,
    second: Seq<EventView>,
)
    requires
        run(engine, first).outcome() matches Some(Ok(_)),
        run(engine, second).outcome() matches Some(Ok(_)),
    ensures
        same_lengths(run(engine, first).tables, run(engine, second).tables),
        first == second ==> run(engine, first).outcome() == run(engine, second).outcome(),
{
    lemma_tables_are_complete(engine, first);
    lemma_tables_are_complete(engine, second);
}

} // verus!
