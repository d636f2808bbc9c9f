//! The compositor side of the loop: what a batch of engine actions asks of the
//! compositor client during one dispatch callback.
//!
//! Changes to existing surfaces are made at once. A request that the callback must
//! answer with its return value (a new surface, a removal, a popup, a cursor shape,
//! a redraw) can be made only once per callback: the first one ends the batch, and
//! the actions after it are dropped.
use vstd::prelude::*;
use crate::actions::{
    Anchor, Layer, LayerShellActions, LayershellCustomActionsWithIdInner, LayershellCustomActionsWithInfo,
    NewLayerShellSettings, NewMenuSettings, NewPopUpSettings,
};
use crate::cursor::{interaction_shape_code, mouse_interaction};
use crate::registry::{SurfaceId, WindowId};

verus! {

/// A change to an existing surface, made at once.
#[derive(Clone, Copy, Debug, PartialEq, Eq, Structural)]
pub enum SurfaceRequest {
    SetAnchor { surface: SurfaceId, anchor: Anchor },
    SetLayer { surface: SurfaceId, layer: Layer },
    SetSize { surface: SurfaceId, width: u32, height: u32 },
    /// Press a key of the virtual keyboard; its release follows after about 100
    /// microseconds, so that the press reads as a tap.
    PressVirtualKey { time: u32, key: u32 },
}

/// What the dispatch callback answers the compositor client with.
#[derive(Debug, PartialEq, Eq)]
pub enum ReturnData<INFO> {
    Nothing,
    NewLayerShell { settings: NewLayerShellSettings, info: INFO },
    RemoveLayershell(SurfaceId),
    NewPopUp { settings: NewPopUpSettings, info: INFO },
    /// Show the cursor shape with this protocol code.
    RequestSetCursorShape(u32),
    RedrawAllRequest,
    RedrawIndexRequest(SurfaceId),
}

/// An event that the compositor side sends back to the engine.
#[derive(Debug, PartialEq, Eq)]
pub enum EngineNotice<INFO> {
    WindowRemoved(WindowId),
    NewMenu { surface: SurfaceId, settings: NewMenuSettings, info: INFO },
}

/// One action of a batch, with the lists of surface actions opened up.
#[derive(Debug, PartialEq, Eq)]
pub enum BatchStep<INFO> {
    Item(LayershellCustomActionsWithIdInner<INFO>),
    Action(LayerShellActions<INFO>),
}

/// What one step asks for.
#[derive(Debug, PartialEq, Eq)]
pub enum StepEffect<INFO> {
    Skip,
    Request(SurfaceRequest),
    Notice(EngineNotice<INFO>),
    Reply(ReturnData<INFO>),
    NoticeAndReply(EngineNotice<INFO>, ReturnData<INFO>),
}

/// What a dispatch callback does with a batch.
#[derive(Debug, PartialEq, Eq)]
pub struct DispatchPlan<INFO> {
    pub requests: Vec<SurfaceRequest>,
    pub notices: Vec<EngineNotice<INFO>>,
    pub reply: ReturnData<INFO>,
}

/// The steps of one action: a list of surface actions opens up into its items.
pub open spec fn steps_of<INFO>(action: LayerShellActions<INFO>) -> Seq<BatchStep<INFO>> {
    match action {
        LayerShellActions::CustomActionsWithId(list) => list@.map_values(
            |a: LayershellCustomActionsWithIdInner<INFO>| BatchStep::Item(a),
        ),
        _ => seq![BatchStep::Action(action)],
    }
}

/// The steps of a batch, in order.
pub open spec fn flatten<INFO>(batch: Seq<LayerShellActions<INFO>>) -> Seq<BatchStep<INFO>>
    decreases batch.len(),
{
    if batch.len() == 0 {
        Seq::empty()
    } else {
        flatten(batch.drop_last()) + steps_of(batch.last())
    }
}

/// What a step asks for, given the surfaces that exist and the surface that has
/// the focus. Surface actions for a surface that is gone are skipped; popups and
/// menus need a focused surface to open from; a removal needs the surface to remove.
pub open spec fn step_effect<INFO>(step: BatchStep<INFO>, live: Seq<SurfaceId>, current: Option<SurfaceId>) -> StepEffect<INFO> {
    match step {
        BatchStep::Item(LayershellCustomActionsWithIdInner(surface, removed, action)) => if !live.contains(surface) {
            StepEffect::Skip
        } else {
            match action {
                LayershellCustomActionsWithInfo::AnchorChange(anchor) => StepEffect::Request(
                    SurfaceRequest::SetAnchor { surface, anchor },
                ),
                LayershellCustomActionsWithInfo::LayerChange(layer) => StepEffect::Request(
                    SurfaceRequest::SetLayer { surface, layer },
                ),
                LayershellCustomActionsWithInfo::SizeChange { width, height } => StepEffect::Request(
                    SurfaceRequest::SetSize { surface, width, height },
                ),
                LayershellCustomActionsWithInfo::VirtualKeyboardPressed { time, key } => StepEffect::Request(
                    SurfaceRequest::PressVirtualKey { time, key },
                ),
                LayershellCustomActionsWithInfo::NewLayerShell { settings, info } => StepEffect::Reply(
                    ReturnData::NewLayerShell { settings, info },
                ),
                LayershellCustomActionsWithInfo::RemoveLayerShell(id) => match removed {
                    Some(target) => StepEffect::NoticeAndReply(
                        EngineNotice::WindowRemoved(id),
                        ReturnData::RemoveLayershell(target),
                    ),
                    None => StepEffect::Skip,
                },
                LayershellCustomActionsWithInfo::NewPopUp { settings, info } => match current {
                    Some(parent) => StepEffect::Reply(
                        ReturnData::NewPopUp {
                            settings: NewPopUpSettings {
                                width: settings.width,
                                height: settings.height,
                                x: settings.x,
                                y: settings.y,
                                id: parent,
                            },
                            info,
                        },
                    ),
                    None => StepEffect::Skip,
                },
                LayershellCustomActionsWithInfo::NewMenu { settings, info } => match current {
                    Some(parent) => StepEffect::Notice(EngineNotice::NewMenu { surface: parent, settings, info }),
                    None => StepEffect::Skip,
                },
            }
        },
        BatchStep::Action(LayerShellActions::NewMenu { settings, info }) => match current {
            Some(parent) => StepEffect::Reply(
                ReturnData::NewPopUp {
                    settings: NewPopUpSettings {
                        width: settings.width,
                        height: settings.height,
                        x: settings.x,
                        y: settings.y,
                        id: parent,
                    },
                    info,
                },
            ),
            None => StepEffect::Skip,
        },
        BatchStep::Action(LayerShellActions::Mouse(interaction)) => StepEffect::Reply(
            ReturnData::RequestSetCursorShape(interaction_shape_code(interaction)),
        ),
        BatchStep::Action(LayerShellActions::RedrawAll) => StepEffect::Reply(ReturnData::RedrawAllRequest),
        BatchStep::Action(LayerShellActions::RedrawWindow(surface)) => StepEffect::Reply(
            ReturnData::RedrawIndexRequest(surface),
        ),
        BatchStep::Action(LayerShellActions::CustomActionsWithId(_)) => StepEffect::Skip,
    }
}

/// The reply of the first step that has one, if any.
pub open spec fn plan_reply<INFO>(steps: Seq<BatchStep<INFO>>, live: Seq<SurfaceId>, current: Option<SurfaceId>) -> Option<
    ReturnData<INFO>,
>
    decreases steps.len(),
{
    if steps.len() == 0 {
        None
    } else {
        let prev = plan_reply(steps.drop_last(), live, current);
        if prev is Some {
            prev
        } else {
            match step_effect(steps.last(), live, current) {
                StepEffect::Reply(r) => Some(r),
                StepEffect::NoticeAndReply(_, r) => Some(r),
                _ => None,
            }
        }
    }
}

/// The surface requests of the steps up to the first reply, in order.
pub open spec fn plan_requests<INFO>(steps: Seq<BatchStep<INFO>>, live: Seq<SurfaceId>, current: Option<SurfaceId>) -> Seq<
    SurfaceRequest,
>
    decreases steps.len(),
{
    if steps.len() == 0 {
        Seq::empty()
    } else {
        let prev = plan_requests(steps.drop_last(), live, current);
        if plan_reply(steps.drop_last(), live, current) is Some {
            prev
        } else {
            match step_effect(steps.last(), live, current) {
                StepEffect::Request(q) => prev.push(q),
                _ => prev,
            }
        }
    }
}

/// The notices for the engine of the steps up to the first reply, in order.
pub open spec fn plan_notices<INFO>(steps: Seq<BatchStep<INFO>>, live: Seq<SurfaceId>, current: Option<SurfaceId>) -> Seq<
    EngineNotice<INFO>,
>
    decreases steps.len(),
{
    if steps.len() == 0 {
        Seq::empty()
    } else {
        let prev = plan_notices(steps.drop_last(), live, current);
        if plan_reply(steps.drop_last(), live, current) is Some {
            prev
        } else {
            match step_effect(steps.last(), live, current) {
                StepEffect::Notice(n) => prev.push(n),
                StepEffect::NoticeAndReply(n, _) => prev.push(n),
                _ => prev,
            }
        }
    }
}

/// Opens up the lists of surface actions of a batch.
pub fn flatten_batch<INFO>(batch: Vec<LayerShellActions<INFO>>) -> (r: Vec<BatchStep<INFO>>)
    ensures
        r@ == flatten(batch@),
{
    let ghost all = batch@;
    let total = batch.len();
    let mut rest = batch;
    let mut steps: Vec<BatchStep<INFO>> = Vec::new();
    let mut k: usize = 0;
    while rest.len() > 0
        invariant
            all.len() == total,
            k + rest@.len() == all.len(),
            rest@ == all.subrange(k as int, all.len() as int),
            steps@ == flatten(all.subrange(0, k as int)),
        decreases rest@.len(),
    {
        let action = rest.remove(0);
        proof {
            let done = all.subrange(0, k + 1);
            assert(done.drop_last() =~= all.subrange(0, k as int));
            assert(done.last() == action);
            assert(rest@ =~= all.subrange(k + 1, all.len() as int));
        }
        let ghost before = steps@;
        match action {
            LayerShellActions::CustomActionsWithId(list) => {
                let ghost items = list@;
                let count = list.len();
                let mut left = list;
                let mut j: usize = 0;
                while left.len() > 0
                    invariant
                        items.len() == count,
                        j + left@.len() == items.len(),
                        left@ == items.subrange(j as int, items.len() as int),
                        steps@ == before + items.subrange(0, j as int).map_values(
                            |a: LayershellCustomActionsWithIdInner<INFO>| BatchStep::Item(a),
                        ),
                    decreases left@.len(),
                {
                    let item = left.remove(0);
                    proof {
                        assert(left@ =~= items.subrange(j + 1, items.len() as int));
                    }
                    steps.push(BatchStep::Item(item));
                    proof {
                        assert(items.subrange(0, j + 1).map_values(
                            |a: LayershellCustomActionsWithIdInner<INFO>| BatchStep::Item(a),
                        ) =~= items.subrange(0, j as int).map_values(
                            |a: LayershellCustomActionsWithIdInner<INFO>| BatchStep::Item(a),
                        ).push(BatchStep::Item(item)));
                    }
                    j += 1;
                }
                proof {
                    assert(items.subrange(0, j as int) =~= items);
                }
            },
            _ => {
                steps.push(BatchStep::Action(action));
            },
        }
        k += 1;
    }
    proof {
        assert(all.subrange(0, k as int) =~= all);
    }
    steps
}

fn is_live(live: &Vec<SurfaceId>, surface: SurfaceId) -> (r: bool)
    ensures
        r == live@.contains(surface),
{
    let mut i: usize = 0;
    while i < live.len()
        invariant
            i <= live@.len(),
            forall|j: int| 0 <= j < i ==> live@[j] != surface,
        decreases live@.len() - i,
    {
        if live[i] == surface {
            return true;
        }
        i += 1;
    }
    false
}

/// What one step asks for.
pub fn effect_of_step<INFO>(step: BatchStep<INFO>, live: &Vec<SurfaceId>, current: Option<SurfaceId>) -> (r:
    StepEffect<INFO>)
    ensures
        r == step_effect(step, live@, current),
{
    match step {
        BatchStep::Item(LayershellCustomActionsWithIdInner(surface, removed, action)) => {
            if !is_live(live, surface) {
                return StepEffect::Skip;
            }
            match action {
                LayershellCustomActionsWithInfo::AnchorChange(anchor) => StepEffect::Request(
                    SurfaceRequest::SetAnchor { surface, anchor },
                ),
                LayershellCustomActionsWithInfo::LayerChange(layer) => StepEffect::Request(
                    SurfaceRequest::SetLayer { surface, layer },
                ),
                LayershellCustomActionsWithInfo::SizeChange { width, height } => StepEffect::Request(
                    SurfaceRequest::SetSize { surface, width, height },
                ),
                LayershellCustomActionsWithInfo::VirtualKeyboardPressed { time, key } => StepEffect::Request(
                    SurfaceRequest::PressVirtualKey { time, key },
                ),
                LayershellCustomActionsWithInfo::NewLayerShell { settings, info } => StepEffect::Reply(
                    ReturnData::NewLayerShell { settings, info },
                ),
                LayershellCustomActionsWithInfo::RemoveLayerShell(id) => match removed {
                    Some(target) => StepEffect::NoticeAndReply(
                        EngineNotice::WindowRemoved(id),
                        ReturnData::RemoveLayershell(target),
                    ),
                    None => StepEffect::Skip,
                },
                LayershellCustomActionsWithInfo::NewPopUp { settings, info } => match current {
                    Some(parent) => StepEffect::Reply(
                        ReturnData::NewPopUp {
                            settings: NewPopUpSettings {
                                width: settings.width,
                                height: settings.height,
                                x: settings.x,
                                y: settings.y,
                                id: parent,
                            },
                            info,
                        },
                    ),
                    None => StepEffect::Skip,
                },
                LayershellCustomActionsWithInfo::NewMenu { settings, info } => match current {
                    Some(parent) => StepEffect::Notice(EngineNotice::NewMenu { surface: parent, settings, info }),
                    None => StepEffect::Skip,
                },
            }
        },
        BatchStep::Action(LayerShellActions::NewMenu { settings, info }) => match current {
            Some(parent) => StepEffect::Reply(
                ReturnData::NewPopUp {
                    settings: NewPopUpSettings {
                        width: settings.width,
                        height: settings.height,
                        x: settings.x,
                        y: settings.y,
                        id: parent,
                    },
                    info,
                },
            ),
            None => StepEffect::Skip,
        },
        BatchStep::Action(LayerShellActions::Mouse(interaction)) => StepEffect::Reply(
            ReturnData::RequestSetCursorShape(mouse_interaction(interaction)),
        ),
        BatchStep::Action(LayerShellActions::RedrawAll) => StepEffect::Reply(ReturnData::RedrawAllRequest),
        BatchStep::Action(LayerShellActions::RedrawWindow(surface)) => StepEffect::Reply(
            ReturnData::RedrawIndexRequest(surface),
        ),
        BatchStep::Action(LayerShellActions::CustomActionsWithId(_)) => StepEffect::Skip,
    }
}

/// What a dispatch callback does with a batch of engine actions, given the surfaces
/// that exist and the one that has the focus: the surface requests and engine
/// notices of the actions before the first one that needs the callback's answer,
/// and that answer (`Nothing` when no action needs one).
pub fn plan_batch<INFO>(
    batch: Vec<LayerShellActions<INFO>>,
    live: &Vec<SurfaceId>,
    current: Option<SurfaceId>,
) -> (r: DispatchPlan<INFO>)
    ensures
        r.requests@ == plan_requests(flatten(batch@), live@, current),
        r.notices@ == plan_notices(flatten(batch@), live@, current),
        match plan_reply(flatten(batch@), live@, current) {
            Some(reply) => r.reply == reply,
            None => r.reply is Nothing,
        },
{
    let steps = flatten_batch(batch);
    let ghost all = steps@;
    let total = steps.len();
    let mut rest = steps;
    let mut requests: Vec<SurfaceRequest> = Vec::new();
    let mut notices: Vec<EngineNotice<INFO>> = Vec::new();
    let mut reply: Option<ReturnData<INFO>> = None;
    let mut k: usize = 0;
    while rest.len() > 0
        invariant
            all.len() == total,
            k + rest@.len() == all.len(),
            rest@ == all.subrange(k as int, all.len() as int),
            requests@ == plan_requests(all.subrange(0, k as int), live@, current),
            notices@ == plan_notices(all.subrange(0, k as int), live@, current),
            reply == plan_reply(all.subrange(0, k as int), live@, current),
        decreases rest@.len(),
    {
        let step = rest.remove(0);
        proof {
            let done = all.subrange(0, k + 1);
            assert(done.drop_last() =~= all.subrange(0, k as int));
            assert(done.last() == step);
            assert(rest@ =~= all.subrange(k + 1, all.len() as int));
        }
        if reply.is_none() {
            match effect_of_step(step, live, current) {
                StepEffect::Skip => {},
                StepEffect::Request(q) => {
                    requests.push(q);
                },
                StepEffect::Notice(n) => {
                    notices.push(n);
                },
                StepEffect::Reply(answer) => {
                    reply = Some(answer);
                },
                StepEffect::NoticeAndReply(n, answer) => {
                    notices.push(n);
                    reply = Some(answer);
                },
            }
        }
        k += 1;
    }
    proof {
        assert(all.subrange(0, k as int) =~= all);
    }
    let reply = match reply {
        Some(answer) => answer,
        None => ReturnData::Nothing,
    };
    DispatchPlan { requests, notices, reply }
}

} // verus!
