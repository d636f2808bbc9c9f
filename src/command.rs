//! Translation of the UI runtime's command actions into compositor actions.
use vstd::prelude::*;
use crate::actions::{
    LayershellCustomActionsWithIdAndInfo, LayershellCustomActionsWithIdInner,
    LayershellCustomActionsWithInfo,
};
use crate::registry::{layer_id_of, WindowEntry, WindowId, WindowManager, MAIN_WINDOW};

verus! {

/// A window action of the UI runtime that the engine carries out.
#[derive(Clone, Copy, Debug, PartialEq, Eq, Structural)]
pub enum WindowAction {
    Close(WindowId),
    Screenshot(WindowId),
}

/// One action of a command that the application's update returned. `W` stands for
/// the work that only the UI runtime can do (tasks, streams, widget operations,
/// fonts).
#[derive(Debug, PartialEq, Eq)]
pub enum CommandAction<INFO, W> {
    Window(WindowAction),
    /// A layer-shell action carrying the application's window tag.
    Custom(LayershellCustomActionsWithIdAndInfo<INFO>),
    /// A layer-shell action written without a window tag.
    CustomUntagged(LayershellCustomActionsWithIdAndInfo<()>),
    Runtime(W),
}

/// Work that the UI runtime is left to do.
#[derive(Debug, PartialEq, Eq)]
pub enum RuntimeWork<W> {
    Perform(W),
    /// A screenshot of a registered window.
    Screenshot(WindowId),
}

/// What one command action comes to.
#[derive(Debug, PartialEq, Eq)]
pub enum ActionEffect<INFO, W> {
    /// The application exits.
    Exit,
    /// A layer-shell action for the compositor.
    Surface(LayershellCustomActionsWithIdInner<INFO>),
    Work(RuntimeWork<W>),
    /// Nothing: the action's window is gone, or the action needs a tag it lacks.
    Dropped,
}

/// The surface to remove along with a removal action, if its window is known.
pub open spec fn removal_target<INFO>(s: Seq<WindowEntry>, action: LayershellCustomActionsWithInfo<INFO>) -> Option<
    crate::registry::SurfaceId,
> {
    match action {
        LayershellCustomActionsWithInfo::RemoveLayerShell(id) => layer_id_of(s, id),
        _ => None,
    }
}

/// A layer-shell action aimed at a window, for that window's surface; dropped
/// when the window is gone.
pub open spec fn custom_effect<INFO, W>(
    s: Seq<WindowEntry>,
    id: WindowId,
    action: LayershellCustomActionsWithInfo<INFO>,
) -> ActionEffect<INFO, W> {
    match layer_id_of(s, id) {
        Some(surface) => ActionEffect::Surface(
            LayershellCustomActionsWithIdInner(surface, removal_target(s, action), action),
        ),
        None => ActionEffect::Dropped,
    }
}

/// An untagged layer-shell action with a tag type of the application's; the
/// actions that create a window need a tag and have none.
pub open spec fn retagged<INFO>(action: LayershellCustomActionsWithInfo<()>) -> Option<
    LayershellCustomActionsWithInfo<INFO>,
> {
    match action {
        LayershellCustomActionsWithInfo::AnchorChange(a) => Some(LayershellCustomActionsWithInfo::AnchorChange(a)),
        LayershellCustomActionsWithInfo::LayerChange(l) => Some(LayershellCustomActionsWithInfo::LayerChange(l)),
        LayershellCustomActionsWithInfo::SizeChange { width, height } => Some(
            LayershellCustomActionsWithInfo::SizeChange { width, height },
        ),
        LayershellCustomActionsWithInfo::VirtualKeyboardPressed { time, key } => Some(
            LayershellCustomActionsWithInfo::VirtualKeyboardPressed { time, key },
        ),
        LayershellCustomActionsWithInfo::RemoveLayerShell(id) => Some(
            LayershellCustomActionsWithInfo::RemoveLayerShell(id),
        ),
        _ => None,
    }
}

/// What a command action comes to, given the registered windows. Closing the
/// primary window exits the application; closing another window removes its
/// surface.
pub open spec fn effect_of<INFO, W>(s: Seq<WindowEntry>, action: CommandAction<INFO, W>) -> ActionEffect<INFO, W> {
    match action {
        CommandAction::Window(WindowAction::Close(id)) => if id.0 == MAIN_WINDOW {
            ActionEffect::Exit
        } else {
            match layer_id_of(s, id) {
                Some(surface) => ActionEffect::Surface(
                    LayershellCustomActionsWithIdInner(
                        surface,
                        Some(surface),
                        LayershellCustomActionsWithInfo::RemoveLayerShell(id),
                    ),
                ),
                None => ActionEffect::Dropped,
            }
        },
        CommandAction::Window(WindowAction::Screenshot(id)) => match layer_id_of(s, id) {
            Some(_) => ActionEffect::Work(RuntimeWork::Screenshot(id)),
            None => ActionEffect::Dropped,
        },
        CommandAction::Custom(LayershellCustomActionsWithIdAndInfo(id, a)) => custom_effect(s, id, a),
        CommandAction::CustomUntagged(LayershellCustomActionsWithIdAndInfo(id, a)) => match retagged::<INFO>(a) {
            Some(b) => custom_effect(s, id, b),
            None => ActionEffect::Dropped,
        },
        CommandAction::Runtime(w) => ActionEffect::Work(RuntimeWork::Perform(w)),
    }
}

/// The layer-shell actions that a sequence of command actions comes to, in order.
pub open spec fn surface_actions<INFO, W>(s: Seq<WindowEntry>, actions: Seq<CommandAction<INFO, W>>) -> Seq<
    LayershellCustomActionsWithIdInner<INFO>,
>
    decreases actions.len(),
{
    if actions.len() == 0 {
        Seq::empty()
    } else {
        let prev = surface_actions(s, actions.drop_last());
        match effect_of(s, actions.last()) {
            ActionEffect::Surface(a) => prev.push(a),
            _ => prev,
        }
    }
}

/// The work that a sequence of command actions leaves to the UI runtime, in order.
pub open spec fn runtime_work<INFO, W>(s: Seq<WindowEntry>, actions: Seq<CommandAction<INFO, W>>) -> Seq<RuntimeWork<W>>
    decreases actions.len(),
{
    if actions.len() == 0 {
        Seq::empty()
    } else {
        let prev = runtime_work(s, actions.drop_last());
        match effect_of(s, actions.last()) {
            ActionEffect::Work(w) => prev.push(w),
            _ => prev,
        }
    }
}

/// Whether a sequence of command actions makes the application exit.
pub open spec fn exits<INFO, W>(s: Seq<WindowEntry>, actions: Seq<CommandAction<INFO, W>>) -> bool
    decreases actions.len(),
{
    if actions.len() == 0 {
        false
    } else {
        exits(s, actions.drop_last()) || effect_of(s, actions.last()) is Exit
    }
}

/// Closing the primary window exits and removes no surface; closing another window
/// that is registered removes exactly its surface and does not exit.
pub proof fn lemma_close_window<INFO, W>(s: Seq<WindowEntry>, id: WindowId)
    ensures
        ({
            let acts = seq![CommandAction::<INFO, W>::Window(WindowAction::Close(id))];
            &&& id.0 == MAIN_WINDOW ==> exits(s, acts) && surface_actions(s, acts).len() == 0
            &&& id.0 != MAIN_WINDOW && layer_id_of(s, id) is Some ==> !exits(s, acts) && surface_actions(
                s,
                acts,
            ) == seq![
                LayershellCustomActionsWithIdInner::<INFO>(
                    layer_id_of(s, id)->0,
                    layer_id_of(s, id),
                    LayershellCustomActionsWithInfo::RemoveLayerShell(id),
                ),
            ]
        }),
{
    let acts = seq![CommandAction::<INFO, W>::Window(WindowAction::Close(id))];
    let none = Seq::<CommandAction<INFO, W>>::empty();
    assert(acts.drop_last() =~= none);
    assert(acts.last() == CommandAction::<INFO, W>::Window(WindowAction::Close(id)));
    assert(!exits(s, none));
    assert(surface_actions(s, none).len() == 0);
}

fn custom_effect_exec<INFO, W>(
    windows: &WindowManager,
    id: WindowId,
    action: LayershellCustomActionsWithInfo<INFO>,
) -> (r: ActionEffect<INFO, W>)
    requires
        windows.wf(),
    ensures
        r == custom_effect::<INFO, W>(windows@, id, action),
{
    let removal = match action {
        LayershellCustomActionsWithInfo::RemoveLayerShell(target) => windows.get_layer_id(target),
        _ => None,
    };
    match windows.get_layer_id(id) {
        Some(surface) => ActionEffect::Surface(LayershellCustomActionsWithIdInner(surface, removal, action)),
        None => ActionEffect::Dropped,
    }
}

fn retag<INFO>(action: LayershellCustomActionsWithInfo<()>) -> (r: Option<LayershellCustomActionsWithInfo<INFO>>)
    ensures
        r == retagged::<INFO>(action),
{
    match action {
        LayershellCustomActionsWithInfo::AnchorChange(a) => Some(LayershellCustomActionsWithInfo::AnchorChange(a)),
        LayershellCustomActionsWithInfo::LayerChange(l) => Some(LayershellCustomActionsWithInfo::LayerChange(l)),
        LayershellCustomActionsWithInfo::SizeChange { width, height } => Some(
            LayershellCustomActionsWithInfo::SizeChange { width, height },
        ),
        LayershellCustomActionsWithInfo::VirtualKeyboardPressed { time, key } => Some(
            LayershellCustomActionsWithInfo::VirtualKeyboardPressed { time, key },
        ),
        LayershellCustomActionsWithInfo::RemoveLayerShell(id) => Some(
            LayershellCustomActionsWithInfo::RemoveLayerShell(id),
        ),
        _ => None,
    }
}

/// What a command action comes to, given the registered windows.
pub fn action_effect<INFO, W>(windows: &WindowManager, action: CommandAction<INFO, W>) -> (r: ActionEffect<INFO, W>)
    requires
        windows.wf(),
    ensures
        r == effect_of(windows@, action),
{
    match action {
        CommandAction::Window(WindowAction::Close(id)) => {
            if id.is_main() {
                return ActionEffect::Exit;
            }
            match windows.get_layer_id(id) {
                Some(surface) => ActionEffect::Surface(
                    LayershellCustomActionsWithIdInner(
                        surface,
                        Some(surface),
                        LayershellCustomActionsWithInfo::RemoveLayerShell(id),
                    ),
                ),
                None => ActionEffect::Dropped,
            }
        },
        CommandAction::Window(WindowAction::Screenshot(id)) => match windows.get_layer_id(id) {
            Some(_) => ActionEffect::Work(RuntimeWork::Screenshot(id)),
            None => ActionEffect::Dropped,
        },
        CommandAction::Custom(LayershellCustomActionsWithIdAndInfo(id, a)) => custom_effect_exec(windows, id, a),
        CommandAction::CustomUntagged(LayershellCustomActionsWithIdAndInfo(id, a)) => match retag::<INFO>(a) {
            Some(b) => custom_effect_exec(windows, id, b),
            None => ActionEffect::Dropped,
        },
        CommandAction::Runtime(w) => ActionEffect::Work(RuntimeWork::Perform(w)),
    }
}

/// What a whole command comes to: its layer-shell actions, the work left to the UI
/// runtime, and whether the application exits.
pub struct CommandOutcome<INFO, W> {
    pub surface_actions: Vec<LayershellCustomActionsWithIdInner<INFO>>,
    pub work: Vec<RuntimeWork<W>>,
    pub exit: bool,
}

/// Translates the actions of a command, in order.
pub fn translate_command<INFO, W>(windows: &WindowManager, actions: Vec<CommandAction<INFO, W>>) -> (r:
    CommandOutcome<INFO, W>)
    requires
        windows.wf(),
    ensures
        r.surface_actions@ == surface_actions(windows@, actions@),
        r.work@ == runtime_work(windows@, actions@),
        r.exit == exits(windows@, actions@),
{
    let ghost all = actions@;
    let total = actions.len();
    let mut rest = actions;
    let mut surface: Vec<LayershellCustomActionsWithIdInner<INFO>> = Vec::new();
    let mut work: Vec<RuntimeWork<W>> = Vec::new();
    let mut exit = false;
    let mut k: usize = 0;
    while rest.len() > 0
        invariant
            windows.wf(),
            all.len() == total,
            k + rest@.len() == all.len(),
            rest@ == all.subrange(k as int, all.len() as int),
            surface@ == surface_actions(windows@, all.subrange(0, k as int)),
            work@ == runtime_work(windows@, all.subrange(0, k as int)),
            exit == exits(windows@, all.subrange(0, k as int)),
        decreases rest@.len(),
    {
        let action = rest.remove(0);
        proof {
            let done = all.subrange(0, k + 1);
            assert(done.drop_last() =~= all.subrange(0, k as int));
            assert(done.last() == action);
            assert(rest@ =~= all.subrange(k + 1, all.len() as int));
        }
        match action_effect(windows, action) {
            ActionEffect::Exit => {
                exit = true;
            },
            ActionEffect::Surface(a) => {
                surface.push(a);
            },
            ActionEffect::Work(w) => {
                work.push(w);
            },
            ActionEffect::Dropped => {},
        }
        k += 1;
    }
    proof {
        assert(all.subrange(0, k as int) =~= all);
    }
    CommandOutcome { surface_actions: surface, work, exit }
}

} // verus!
