use iced_layershell::actions::{
    Anchor, Layer, LayerShellActions, LayershellCustomActionsWithIdInner, LayershellCustomActionsWithInfo,
    MenuDirection, NewMenuSettings, NewPopUpSettings, NewPopupSettings,
};
use iced_layershell::cache::{build_user_interfaces, Interface, InterfaceCache};
use iced_layershell::cursor::MouseInteraction;
use iced_layershell::dispatch::{plan_batch, EngineNotice, ReturnData, SurfaceRequest};
use iced_layershell::registry::{SurfaceId, WindowId, WindowManager};

fn item(surface: u64, action: LayershellCustomActionsWithInfo<u8>) -> LayershellCustomActionsWithIdInner<u8> {
    LayershellCustomActionsWithIdInner(SurfaceId(surface), None, action)
}

#[test]
fn changes_come_before_first_reply() {
    let batch = vec![
        LayerShellActions::CustomActionsWithId(vec![
            item(1, LayershellCustomActionsWithInfo::AnchorChange(Anchor(1 | 4 | 8))),
            item(1, LayershellCustomActionsWithInfo::SizeChange { width: 0, height: 400 }),
            item(1, LayershellCustomActionsWithInfo::LayerChange(Layer::Overlay)),
        ]),
        LayerShellActions::RedrawAll,
        LayerShellActions::Mouse(MouseInteraction::Text),
    ];
    let plan = plan_batch(batch, &vec![SurfaceId(1)], None);
    assert_eq!(
        plan.requests,
        vec![
            SurfaceRequest::SetAnchor { surface: SurfaceId(1), anchor: Anchor(13) },
            SurfaceRequest::SetSize { surface: SurfaceId(1), width: 0, height: 400 },
            SurfaceRequest::SetLayer { surface: SurfaceId(1), layer: Layer::Overlay },
        ]
    );
    assert!(plan.notices.is_empty());
    assert_eq!(plan.reply, ReturnData::RedrawAllRequest);
}

#[test]
fn empty_batch_needs_no_answer() {
    let plan = plan_batch::<u8>(vec![], &vec![SurfaceId(1)], None);
    assert!(plan.requests.is_empty());
    assert!(plan.notices.is_empty());
    assert_eq!(plan.reply, ReturnData::Nothing);
}

#[test]
fn actions_after_a_reply_are_dropped() {
    let batch = vec![
        LayerShellActions::Mouse(MouseInteraction::Grab),
        LayerShellActions::CustomActionsWithId(vec![item(1, LayershellCustomActionsWithInfo::LayerChange(Layer::Top))]),
        LayerShellActions::RedrawWindow(SurfaceId(1)),
    ];
    let plan = plan_batch(batch, &vec![SurfaceId(1)], None);
    assert!(plan.requests.is_empty());
    assert_eq!(plan.reply, ReturnData::RequestSetCursorShape(16));
}

#[test]
fn actions_for_gone_surfaces_are_skipped() {
    let batch = vec![LayerShellActions::CustomActionsWithId(vec![
        item(2, LayershellCustomActionsWithInfo::LayerChange(Layer::Top)),
        item(1, LayershellCustomActionsWithInfo::VirtualKeyboardPressed { time: 5, key: 30 }),
    ])];
    let plan = plan_batch(batch, &vec![SurfaceId(1)], None);
    assert_eq!(plan.requests, vec![SurfaceRequest::PressVirtualKey { time: 5, key: 30 }]);
    assert_eq!(plan.reply, ReturnData::Nothing);
}

#[test]
fn removal_notifies_engine_and_removes_surface() {
    let batch = vec![LayerShellActions::CustomActionsWithId(vec![LayershellCustomActionsWithIdInner(
        SurfaceId(2),
        Some(SurfaceId(2)),
        LayershellCustomActionsWithInfo::RemoveLayerShell(WindowId(3)),
    )])];
    let plan = plan_batch::<u8>(batch, &vec![SurfaceId(1), SurfaceId(2)], None);
    assert_eq!(plan.notices, vec![EngineNotice::WindowRemoved(WindowId(3))]);
    assert_eq!(plan.reply, ReturnData::RemoveLayershell(SurfaceId(2)));
}

#[test]
fn removal_without_target_is_skipped() {
    let batch = vec![LayerShellActions::CustomActionsWithId(vec![item(
        2,
        LayershellCustomActionsWithInfo::RemoveLayerShell(WindowId(3)),
    )])];
    let plan = plan_batch(batch, &vec![SurfaceId(2)], None);
    assert!(plan.notices.is_empty());
    assert_eq!(plan.reply, ReturnData::Nothing);
}

#[test]
fn popups_open_from_focused_surface() {
    let popup = NewPopupSettings { width: 20, height: 10, x: 5, y: 6 };
    let batch = vec![LayerShellActions::NewMenu { settings: popup, info: 4u8 }];
    let plan = plan_batch(batch, &vec![SurfaceId(1)], Some(SurfaceId(1)));
    assert_eq!(
        plan.reply,
        ReturnData::NewPopUp {
            settings: NewPopUpSettings { width: 20, height: 10, x: 5, y: 6, id: SurfaceId(1) },
            info: 4,
        }
    );
    let batch = vec![LayerShellActions::NewMenu { settings: popup, info: 4u8 }];
    let plan = plan_batch(batch, &vec![SurfaceId(1)], None);
    assert_eq!(plan.reply, ReturnData::Nothing);
}

#[test]
fn menu_request_goes_back_to_engine() {
    let menu = NewMenuSettings { width: 30, height: 40, direction: MenuDirection::Up };
    let batch = vec![LayerShellActions::CustomActionsWithId(vec![item(
        1,
        LayershellCustomActionsWithInfo::NewMenu { settings: menu, info: 2 },
    )])];
    let plan = plan_batch(batch, &vec![SurfaceId(1)], Some(SurfaceId(7)));
    assert_eq!(plan.notices, vec![EngineNotice::NewMenu { surface: SurfaceId(7), settings: menu, info: 2 }]);
    assert_eq!(plan.reply, ReturnData::Nothing);
}

#[test]
fn registry_refuses_duplicates() {
    let mut windows = WindowManager::new();
    assert!(windows.insert(WindowId(0), SurfaceId(1), 10, 10));
    assert!(!windows.insert(WindowId(0), SurfaceId(2), 10, 10));
    assert!(!windows.insert(WindowId(1), SurfaceId(1), 10, 10));
    assert!(windows.insert(WindowId(1), SurfaceId(2), 10, 10));
    assert_eq!(windows.ids(), vec![WindowId(0), WindowId(1)]);
}

#[test]
fn registry_lookups_agree_through_changes() {
    let mut windows = WindowManager::new();
    windows.insert(WindowId(0), SurfaceId(1), 10, 10);
    windows.insert(WindowId(4), SurfaceId(9), 10, 10);
    windows.insert(WindowId(5), SurfaceId(6), 10, 10);
    assert!(windows.set_size(WindowId(4), 50, 60));
    assert!(windows.remove(WindowId(0)).is_some());
    for (id, surface) in [(WindowId(4), SurfaceId(9)), (WindowId(5), SurfaceId(6))] {
        assert_eq!(windows.get_alias(surface), Some(id));
        assert_eq!(windows.get_layer_id(id), Some(surface));
    }
    assert_eq!(windows.get_alias(SurfaceId(1)), None);
    assert_eq!(windows.get_layer_id(WindowId(0)), None);
    assert_eq!(windows.ids(), vec![WindowId(4), WindowId(5)]);
    assert!(!windows.set_size(WindowId(0), 1, 1));
}

#[test]
fn interfaces_are_cached_then_rebuilt_for_registered_windows() {
    let mut windows = WindowManager::new();
    windows.insert(WindowId(0), SurfaceId(1), 10, 10);
    windows.insert(WindowId(2), SurfaceId(3), 10, 10);
    let mut cache: InterfaceCache<String, usize> = InterfaceCache::new();
    cache.put(WindowId(0), Interface::Live("main".to_string()));
    cache.put(WindowId(1), Interface::Live("gone".to_string()));
    cache.put(WindowId(2), Interface::Cached(7));
    assert_eq!(cache.len(), 3);
    cache.dematerialize_all(|live: String| live.len());
    assert!(matches!(cache.take(WindowId(0)), Some(Interface::Cached(4))));
    cache.put(WindowId(0), Interface::Cached(4));
    let mut cache = build_user_interfaces(&windows, cache, |id: WindowId, size: usize| format!("{}:{}", id.0, size));
    assert_eq!(cache.len(), 2);
    assert!(matches!(cache.take(WindowId(1)), None));
    match cache.take(WindowId(2)) {
        Some(Interface::Live(s)) => assert_eq!(s, "2:7"),
        _ => panic!("window 2 should be live"),
    }
    match cache.take(WindowId(0)) {
        Some(Interface::Live(s)) => assert_eq!(s, "0:4"),
        _ => panic!("window 0 should be live"),
    }
    assert_eq!(cache.len(), 0);
}
