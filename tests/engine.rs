use iced_layershell::actions::{
    Anchor, KeyboardInteractivity, Layer, LayerShellActions, LayershellCustomActionsWithIdAndInfo,
    LayershellCustomActionsWithIdInner, LayershellCustomActionsWithInfo, MenuDirection,
    NewLayerShellSettings, NewMenuSettings, NewPopupSettings, Size,
};
use iced_layershell::command::{CommandAction, RuntimeWork, WindowAction};
use iced_layershell::conversion::SemanticEvent;
use iced_layershell::cursor::MouseInteraction;
use iced_layershell::dispatch::{plan_batch, ReturnData};
use iced_layershell::engine::{whole_pixels_of, Engine};
use iced_layershell::event::{LogicalPoint, Modifiers, WindowEvent};
use iced_layershell::registry::{SurfaceId, WindowId};

#[derive(Debug, Clone, Copy, PartialEq, Eq)]
enum Tag {
    Left,
    PopUp,
}

type TestEngine = Engine<&'static str, Tag, u8>;

const MAIN_SURFACE: SurfaceId = SurfaceId(10);

fn px(v: i32) -> i32 {
    v * 256
}

fn left_panel() -> NewLayerShellSettings {
    NewLayerShellSettings {
        size: Some(Size { width: 100, height: 100 }),
        exclusive_zone: None,
        anchor: Anchor(4 | 2),
        layer: Layer::Top,
        margin: None,
        keyboard_interactivity: KeyboardInteractivity::Exclusive,
        use_last_output: false,
    }
}

#[test]
fn new_engine_queues_primary_opening() {
    let mut engine = TestEngine::new(MAIN_SURFACE, 400, 0);
    assert_eq!(engine.registry().get_alias(MAIN_SURFACE), Some(WindowId(0)));
    let plan = engine.begin_tick().expect("the opening is pending");
    assert_eq!(plan.events, vec![SemanticEvent::Opened { width: 400, height: 0 }]);
    assert_eq!(plan.shares.len(), 1);
    assert_eq!(plan.shares[0].window, WindowId(0));
    assert_eq!(plan.shares[0].events, vec![0]);
    assert!(plan.shares[0].update);
}

#[test]
fn idle_tick_is_a_no_op() {
    let mut engine = TestEngine::new(MAIN_SURFACE, 400, 0);
    assert!(engine.begin_tick().is_some());
    assert_eq!(engine.end_tick(false), None);
    assert!(engine.begin_tick().is_none());
    assert_eq!(engine.end_tick(false), None);
    assert!(engine.take_actions().is_empty());
    assert!(!engine.should_exit());
}

#[test]
fn pointer_enter_and_move_reach_primary_window() {
    let mut engine = TestEngine::new(MAIN_SURFACE, 400, 0);
    engine.on_window_event(MAIN_SURFACE, WindowEvent::CursorEnter { x: 0, y: 0 });
    engine.on_window_event(MAIN_SURFACE, WindowEvent::CursorMoved { x: px(10), y: px(10) });
    let plan = engine.begin_tick().expect("events are pending");
    assert_eq!(plan.shares.len(), 1);
    let share = &plan.shares[0];
    assert_eq!(share.window, WindowId(0));
    let delivered: Vec<&SemanticEvent<u8>> = share.events.iter().map(|i| &plan.events[*i]).collect();
    let entered = delivered.iter().filter(|e| matches!(e, SemanticEvent::CursorEntered)).count();
    let moved: Vec<&&SemanticEvent<u8>> = delivered
        .iter()
        .filter(|e| matches!(e, SemanticEvent::CursorMoved { .. }))
        .collect();
    assert_eq!(entered, 1);
    assert_eq!(moved.len(), 1);
    assert_eq!(**moved[0], SemanticEvent::CursorMoved { position: LogicalPoint { x: px(10), y: px(10) } });
    assert_eq!(engine.end_tick(false), None);
    assert!(engine.take_actions().is_empty());
    let entry = engine.registry().get(WindowId(0)).unwrap();
    assert_eq!(entry.cursor, Some(LogicalPoint { x: px(10), y: px(10) }));
}

#[test]
fn events_of_unknown_surfaces_are_dropped() {
    let mut engine = TestEngine::new(MAIN_SURFACE, 400, 0);
    engine.begin_tick();
    engine.on_window_event(SurfaceId(99), WindowEvent::CursorLeft);
    assert!(engine.begin_tick().is_none());
}

#[test]
fn new_layer_shell_command_creates_tagged_window() {
    let mut engine = TestEngine::new(MAIN_SURFACE, 400, 0);
    let command: Vec<CommandAction<Tag, ()>> = vec![CommandAction::Custom(LayershellCustomActionsWithIdAndInfo(
        WindowId(0),
        LayershellCustomActionsWithInfo::NewLayerShell { settings: left_panel(), info: Tag::Left },
    ))];
    let work = engine.run_command(command);
    assert!(work.is_empty());
    let batch = engine.take_actions();
    assert_eq!(
        batch,
        vec![LayerShellActions::CustomActionsWithId(vec![LayershellCustomActionsWithIdInner(
            MAIN_SURFACE,
            None,
            LayershellCustomActionsWithInfo::NewLayerShell { settings: left_panel(), info: Tag::Left },
        )])]
    );
    let plan = plan_batch(batch, &vec![MAIN_SURFACE], Some(MAIN_SURFACE));
    assert_eq!(plan.reply, ReturnData::NewLayerShell { settings: left_panel(), info: Tag::Left });
    let ReturnData::NewLayerShell { info, .. } = plan.reply else { unreachable!() };

    let fresh = SurfaceId(11);
    let ready = engine.on_surface_ready(fresh, 100, 100, true, Some(info)).unwrap();
    assert_ne!(ready.window, WindowId(0));
    assert_eq!(ready.window, WindowId(1));
    assert!(ready.is_new);
    assert!(!ready.present);
    let mut registered = Vec::new();
    if let Some(tag) = ready.register {
        registered.push((ready.window, tag));
    }
    assert_eq!(registered, vec![(WindowId(1), Tag::Left)]);
    assert_eq!(engine.registry().get_alias(fresh), Some(WindowId(1)));
    assert_eq!(engine.registry().get_layer_id(WindowId(1)), Some(fresh));
}

#[test]
fn resize_keeps_window_and_tag() {
    let mut engine = TestEngine::new(MAIN_SURFACE, 400, 0);
    let first = engine.on_surface_ready(SurfaceId(11), 100, 100, true, Some(Tag::Left)).unwrap();
    let again = engine.on_surface_ready(SurfaceId(11), 300, 120, false, None).unwrap();
    assert_eq!(again.window, first.window);
    assert!(!again.is_new);
    assert!(again.present);
    assert_eq!(again.register, None);
    let entry = engine.registry().get(first.window).unwrap();
    assert_eq!((entry.width, entry.height), (300, 120));
    assert_eq!(engine.registry().len(), 2);
}

#[test]
fn new_window_opening_is_queued_for_it() {
    let mut engine = TestEngine::new(MAIN_SURFACE, 400, 0);
    engine.begin_tick();
    let ready = engine.on_surface_ready(SurfaceId(11), 100, 50, false, None).unwrap();
    assert_eq!(ready.register, None);
    let plan = engine.begin_tick().unwrap();
    assert_eq!(plan.events, vec![SemanticEvent::Opened { width: 100, height: 50 }]);
    assert_eq!(plan.shares[0].events, Vec::<usize>::new());
    assert!(!plan.shares[0].update);
    assert_eq!(plan.shares[1].window, ready.window);
    assert_eq!(plan.shares[1].events, vec![0]);
}

#[test]
fn closing_primary_window_exits() {
    let mut engine = TestEngine::new(MAIN_SURFACE, 400, 0);
    let work = engine.run_command::<()>(vec![CommandAction::Window(WindowAction::Close(WindowId(0)))]);
    assert!(work.is_empty());
    assert!(engine.should_exit());
    assert_eq!(engine.take_actions(), vec![LayerShellActions::CustomActionsWithId(vec![])]);
}

#[test]
fn closing_other_window_removes_its_surface() {
    let mut engine = TestEngine::new(MAIN_SURFACE, 400, 0);
    let ready = engine.on_surface_ready(SurfaceId(11), 100, 100, true, Some(Tag::Left)).unwrap();
    engine.run_command::<()>(vec![CommandAction::Window(WindowAction::Close(ready.window))]);
    assert!(!engine.should_exit());
    assert_eq!(
        engine.take_actions(),
        vec![LayerShellActions::CustomActionsWithId(vec![LayershellCustomActionsWithIdInner(
            SurfaceId(11),
            Some(SurfaceId(11)),
            LayershellCustomActionsWithInfo::RemoveLayerShell(ready.window),
        )])]
    );
}

#[test]
fn closing_unknown_window_does_nothing() {
    let mut engine = TestEngine::new(MAIN_SURFACE, 400, 0);
    engine.run_command::<()>(vec![CommandAction::Window(WindowAction::Close(WindowId(7)))]);
    assert!(!engine.should_exit());
    assert_eq!(engine.take_actions(), vec![LayerShellActions::CustomActionsWithId(vec![])]);
}

#[test]
fn untagged_actions_that_create_windows_are_dropped() {
    let mut engine = TestEngine::new(MAIN_SURFACE, 400, 0);
    let command: Vec<CommandAction<Tag, ()>> = vec![
        CommandAction::CustomUntagged(LayershellCustomActionsWithIdAndInfo(
            WindowId(0),
            LayershellCustomActionsWithInfo::NewLayerShell { settings: left_panel(), info: () },
        )),
        CommandAction::CustomUntagged(LayershellCustomActionsWithIdAndInfo(
            WindowId(0),
            LayershellCustomActionsWithInfo::SizeChange { width: 0, height: 400 },
        )),
    ];
    engine.run_command(command);
    assert_eq!(
        engine.take_actions(),
        vec![LayerShellActions::CustomActionsWithId(vec![LayershellCustomActionsWithIdInner(
            MAIN_SURFACE,
            None,
            LayershellCustomActionsWithInfo::SizeChange { width: 0, height: 400 },
        )])]
    );
}

#[test]
fn removal_action_names_surface_to_remove() {
    let mut engine = TestEngine::new(MAIN_SURFACE, 400, 0);
    let ready = engine.on_surface_ready(SurfaceId(11), 100, 100, false, None).unwrap();
    engine.run_command::<()>(vec![CommandAction::Custom(LayershellCustomActionsWithIdAndInfo(
        WindowId(0),
        LayershellCustomActionsWithInfo::RemoveLayerShell(ready.window),
    ))]);
    assert_eq!(
        engine.take_actions(),
        vec![LayerShellActions::CustomActionsWithId(vec![LayershellCustomActionsWithIdInner(
            MAIN_SURFACE,
            Some(SurfaceId(11)),
            LayershellCustomActionsWithInfo::RemoveLayerShell(ready.window),
        )])]
    );
}

#[test]
fn runtime_work_and_screenshots_are_handed_back() {
    let mut engine = TestEngine::new(MAIN_SURFACE, 400, 0);
    let work = engine.run_command(vec![
        CommandAction::Runtime(5u32),
        CommandAction::Window(WindowAction::Screenshot(WindowId(0))),
        CommandAction::Window(WindowAction::Screenshot(WindowId(4))),
        CommandAction::Runtime(6u32),
    ]);
    assert_eq!(
        work,
        vec![RuntimeWork::Perform(5), RuntimeWork::Screenshot(WindowId(0)), RuntimeWork::Perform(6)]
    );
}

#[test]
fn messages_drive_an_application_update() {
    let mut engine = TestEngine::new(MAIN_SURFACE, 400, 0);
    engine.begin_tick();
    engine.end_tick(false);
    engine.on_user_event("first");
    engine.on_user_event("second");
    let plan = engine.begin_tick().expect("messages are pending");
    assert!(plan.events.is_empty());
    assert!(plan.shares[0].update);
    assert_eq!(engine.end_tick(false), Some(vec!["first", "second"]));
    assert!(!engine.finish_update());
    assert_eq!(engine.take_actions(), vec![LayerShellActions::RedrawAll]);
    assert!(engine.begin_tick().is_none());
}

#[test]
fn stale_interface_forces_an_update() {
    let mut engine = TestEngine::new(MAIN_SURFACE, 400, 0);
    engine.begin_tick();
    assert_eq!(engine.end_tick(true), Some(vec![]));
}

#[test]
fn removed_window_leaves_registry() {
    let mut engine = TestEngine::new(MAIN_SURFACE, 400, 0);
    let ready = engine.on_surface_ready(SurfaceId(11), 100, 100, false, None).unwrap();
    let gone = engine.on_window_removed(ready.window).unwrap();
    assert_eq!(gone.surface, SurfaceId(11));
    assert_eq!(engine.registry().get_alias(SurfaceId(11)), None);
    assert_eq!(engine.registry().get_layer_id(ready.window), None);
    assert_eq!(engine.on_window_removed(ready.window), None);
    let again = engine.on_surface_ready(SurfaceId(11), 100, 100, false, None).unwrap();
    assert_eq!(again.window, WindowId(2));
}

#[test]
fn upward_menu_opens_above_pointer() {
    let mut engine = TestEngine::new(MAIN_SURFACE, 400, 0);
    engine.on_window_event(MAIN_SURFACE, WindowEvent::CursorMoved { x: px(50), y: px(80) });
    let settings = NewMenuSettings { width: 100, height: 30, direction: MenuDirection::Up };
    assert!(engine.on_new_menu(MAIN_SURFACE, settings, Tag::PopUp));
    assert_eq!(
        engine.take_actions(),
        vec![LayerShellActions::NewMenu {
            settings: NewPopupSettings { width: 100, height: 30, x: 50, y: 50 },
            info: Tag::PopUp,
        }]
    );
}

#[test]
fn downward_menu_opens_at_pointer() {
    let mut engine = TestEngine::new(MAIN_SURFACE, 400, 0);
    engine.on_window_event(MAIN_SURFACE, WindowEvent::CursorMoved { x: px(50), y: px(80) });
    let settings = NewMenuSettings { width: 100, height: 30, direction: MenuDirection::Down };
    assert!(engine.on_new_menu(MAIN_SURFACE, settings, Tag::PopUp));
    assert_eq!(
        engine.take_actions(),
        vec![LayerShellActions::NewMenu {
            settings: NewPopupSettings { width: 100, height: 30, x: 50, y: 80 },
            info: Tag::PopUp,
        }]
    );
}

#[test]
fn menu_without_pointer_position_is_skipped() {
    let mut engine = TestEngine::new(MAIN_SURFACE, 400, 0);
    let settings = NewMenuSettings { width: 100, height: 30, direction: MenuDirection::Up };
    assert!(!engine.on_new_menu(MAIN_SURFACE, settings, Tag::PopUp));
    engine.on_window_event(MAIN_SURFACE, WindowEvent::CursorMoved { x: 1, y: 1 });
    engine.on_window_event(MAIN_SURFACE, WindowEvent::CursorLeft);
    assert!(!engine.on_new_menu(MAIN_SURFACE, settings, Tag::PopUp));
    assert!(!engine.on_new_menu(SurfaceId(3), settings, Tag::PopUp));
    assert!(engine.take_actions().is_empty());
}

#[test]
fn menu_position_is_held_at_least_value() {
    let mut engine = TestEngine::new(MAIN_SURFACE, 400, 0);
    engine.on_window_event(MAIN_SURFACE, WindowEvent::CursorMoved { x: 0, y: 0 });
    let settings = NewMenuSettings { width: 1, height: u32::MAX, direction: MenuDirection::Up };
    assert!(engine.on_new_menu(MAIN_SURFACE, settings, Tag::PopUp));
    assert_eq!(
        engine.take_actions(),
        vec![LayerShellActions::NewMenu {
            settings: NewPopupSettings { width: 1, height: u32::MAX, x: 0, y: i32::MIN },
            info: Tag::PopUp,
        }]
    );
}

#[test]
fn whole_pixels_round_toward_zero() {
    assert_eq!(whole_pixels_of(px(50)), 50);
    assert_eq!(whole_pixels_of(px(50) + 255), 50);
    assert_eq!(whole_pixels_of(-(px(3) + 10)), -3);
    assert_eq!(whole_pixels_of(i32::MIN), -8388608);
}

#[test]
fn cursor_shape_change_is_queued_once() {
    let mut engine = TestEngine::new(MAIN_SURFACE, 400, 0);
    assert!(!engine.set_mouse_interaction(WindowId(0), MouseInteraction::Plain));
    assert!(engine.set_mouse_interaction(WindowId(0), MouseInteraction::Pointer));
    assert!(!engine.set_mouse_interaction(WindowId(0), MouseInteraction::Pointer));
    assert!(!engine.set_mouse_interaction(WindowId(5), MouseInteraction::Text));
    assert_eq!(engine.take_actions(), vec![LayerShellActions::Mouse(MouseInteraction::Pointer)]);
}

#[test]
fn modifiers_follow_the_window() {
    let mut engine = TestEngine::new(MAIN_SURFACE, 400, 0);
    engine.begin_tick();
    let ctrl = Modifiers { shift: false, control: true, alt: false, logo: false };
    engine.on_window_event(MAIN_SURFACE, WindowEvent::ModifiersChanged(ctrl));
    assert_eq!(engine.registry().get(WindowId(0)).unwrap().modifiers, ctrl);
    let plan = engine.begin_tick().unwrap();
    assert_eq!(plan.events, vec![SemanticEvent::ModifiersChanged(ctrl)]);
}
