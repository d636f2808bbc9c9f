//! The reconciliation engine: the decisions of the loop that feeds compositor events
//! to the UI runtime's windows and collects the compositor actions they cause.
//!
//! The engine owns the window registry, the queue of pending UI events, the pending
//! application messages, the batch of compositor actions of the current iteration,
//! and the exit flag. Whoever drives it performs the UI runtime's work (building,
//! updating and drawing interfaces) at the points its methods name.
use vstd::prelude::*;
use crate::actions::{LayerShellActions, NewMenuSettings, NewPopupSettings, MenuDirection};
use crate::command::{exits, runtime_work, surface_actions, translate_command, CommandAction, RuntimeWork};
use crate::conversion::{semantic_of, window_event, SemanticEvent};
use crate::cursor::MouseInteraction;
use crate::event::{LogicalPoint, WindowEvent};
use crate::registry::{
    alias_of, entry_after_input, fresh_entry, ids_of, layer_id_of, lemma_alias_agrees, lookup,
    SurfaceId, WindowEntry, WindowId, WindowManager, MAIN_WINDOW,
};

verus! {

/// What became of a surface that is ready to be drawn.
#[derive(Debug, PartialEq, Eq)]
pub struct SurfaceReady<INFO> {
    /// The window that the surface stands for.
    pub window: WindowId,
    /// The window was registered just now: its interface must be built from an
    /// empty cache.
    pub is_new: bool,
    /// The first draw may be presented. A new window is presented only once the
    /// caches have been rebuilt.
    pub present: bool,
    /// The tag to hand to the application's registration hook, between tearing down
    /// every interface into its cache and rebuilding them all.
    pub register: Option<INFO>,
}

/// The pending events that one window's interface is to be updated with.
#[derive(Debug, PartialEq, Eq)]
pub struct WindowShare {
    pub window: WindowId,
    /// Positions in the tick's event list, in arrival order.
    pub events: Vec<usize>,
    /// Whether the window's interface is updated at all this tick: it has events,
    /// or application messages are pending.
    pub update: bool,
}

/// The work of a dispatch tick: the events that were pending, and each registered
/// window's share of them.
#[derive(Debug, PartialEq, Eq)]
pub struct TickPlan<K> {
    pub events: Vec<SemanticEvent<K>>,
    pub shares: Vec<WindowShare>,
}

/// An event is meant for a window when it names that window or names none.
pub open spec fn targets(target: Option<WindowId>, id: WindowId) -> bool {
    target == Some(id) || target is None
}

/// The positions, among the first `n` pending events, of those meant for a window.
pub open spec fn share_upto(targets_seq: Seq<Option<WindowId>>, id: WindowId, n: nat) -> Seq<usize>
    decreases n,
{
    if n == 0 {
        Seq::empty()
    } else {
        let prev = share_upto(targets_seq, id, (n - 1) as nat);
        if targets(targets_seq[n - 1], id) {
            prev.push((n - 1) as usize)
        } else {
            prev
        }
    }
}

/// The positions of the pending events meant for a window, in arrival order.
pub open spec fn share_of(targets_seq: Seq<Option<WindowId>>, id: WindowId) -> Seq<usize> {
    share_upto(targets_seq, id, targets_seq.len())
}

/// A position in 1/256 of a logical pixel, in whole pixels (rounded toward zero).
pub open spec fn whole_pixels(v: i32) -> int {
    if v >= 0 {
        v / 256
    } else {
        -((-v) / 256)
    }
}

/// Where a menu of the given height opens for a pointer position: upward menus
/// end at the pointer, downward ones start there. Positions below the least
/// representable one are held at it.
pub open spec fn menu_position(pointer: LogicalPoint, height: u32, direction: MenuDirection) -> (int, int) {
    let x = whole_pixels(pointer.x);
    let y = whole_pixels(pointer.y);
    match direction {
        MenuDirection::Up => (x, if y - height >= i32::MIN { y - height } else { i32::MIN as int }),
        MenuDirection::Down => (x, y),
    }
}

pub struct Engine<Message, INFO, K> {
    windows: WindowManager,
    events: Vec<SemanticEvent<K>>,
    event_targets: Vec<Option<WindowId>>,
    messages: Vec<Message>,
    actions: Vec<LayerShellActions<INFO>>,
    should_exit: bool,
    next_id: u64,
}

impl<Message, INFO, K> Engine<Message, INFO, K> {
    /// The registered windows, in registration order.
    pub closed spec fn windows(&self) -> Seq<WindowEntry> {
        self.windows@
    }

    /// The UI events waiting for the next tick, in arrival order.
    pub closed spec fn pending_events(&self) -> Seq<SemanticEvent<K>> {
        self.events@
    }

    /// The window each pending event is meant for; `None` means every window.
    pub closed spec fn pending_targets(&self) -> Seq<Option<WindowId>> {
        self.event_targets@
    }

    /// The application messages waiting for the next update, in arrival order.
    pub closed spec fn pending_messages(&self) -> Seq<Message> {
        self.messages@
    }

    /// The compositor actions of the current iteration.
    pub closed spec fn batch(&self) -> Seq<LayerShellActions<INFO>> {
        self.actions@
    }

    /// Whether the application asked to exit.
    pub closed spec fn exiting(&self) -> bool {
        self.should_exit
    }

    /// The number the next new window gets.
    pub closed spec fn next_window(&self) -> u64 {
        self.next_id
    }

    pub closed spec fn wf(&self) -> bool {
        &&& self.windows.wf()
        &&& self.events@.len() == self.event_targets@.len()
        &&& self.next_id > MAIN_WINDOW
        &&& forall|i: int| 0 <= i < self.windows@.len() ==> (#[trigger] self.windows@[i]).id.0 < self.next_id
    }

    /// An engine whose primary window shows on the given surface; the primary
    /// window's opening is the first pending event.
    pub fn new(main_surface: SurfaceId, width: u32, height: u32) -> (r: Self)
        ensures
            r.wf(),
            r.windows() == seq![fresh_entry(WindowId(MAIN_WINDOW), main_surface, width, height)],
            r.pending_events() == seq![SemanticEvent::<K>::Opened { width, height }],
            r.pending_targets() == seq![Some(WindowId(MAIN_WINDOW))],
            r.pending_messages().len() == 0,
            r.batch().len() == 0,
            !r.exiting(),
            r.next_window() == MAIN_WINDOW + 1,
    {
        let mut windows = WindowManager::new();
        let main = WindowId::main();
        windows.insert(main, main_surface, width, height);
        let mut events: Vec<SemanticEvent<K>> = Vec::new();
        events.push(SemanticEvent::Opened { width, height });
        let mut event_targets: Vec<Option<WindowId>> = Vec::new();
        event_targets.push(Some(main));
        let r = Engine {
            windows,
            events,
            event_targets,
            messages: Vec::new(),
            actions: Vec::new(),
            should_exit: false,
            next_id: MAIN_WINDOW + 1,
        };
        proof {
            assert(r.windows@ == seq![fresh_entry(WindowId(MAIN_WINDOW), main_surface, width, height)]);
        }
        r
    }

    /// The window registry.
    pub fn registry(&self) -> (r: &WindowManager)
        ensures
            r@ == self.windows(),
            r.wf() <== self.wf(),
    {
        &self.windows
    }

    /// Whether the application asked to exit.
    pub fn should_exit(&self) -> (r: bool)
        ensures
            r == self.exiting(),
    {
        self.should_exit
    }

    fn push_event(&mut self, target: Option<WindowId>, event: SemanticEvent<K>)
        requires
            old(self).wf(),
        ensures
            final(self).wf(),
            final(self).windows() == old(self).windows(),
            final(self).pending_events() == old(self).pending_events().push(event),
            final(self).pending_targets() == old(self).pending_targets().push(target),
            final(self).pending_messages() == old(self).pending_messages(),
            final(self).batch() == old(self).batch(),
            final(self).exiting() == old(self).exiting(),
            final(self).next_window() == old(self).next_window(),
    {
        self.events.push(event);
        self.event_targets.push(target);
    }

    /// A surface is ready to be drawn. A surface that stands for no window yet
    /// becomes a new window, whose opening is queued as an event for it; a known one
    /// was resized and keeps its window. `None` comes back only when window numbers
    /// have run out; nothing changes then.
    pub fn on_surface_ready(
        &mut self,
        surface: SurfaceId,
        width: u32,
        height: u32,
        is_created: bool,
        info: Option<INFO>,
    ) -> (r: Option<SurfaceReady<INFO>>)
        requires
            old(self).wf(),
        ensures
            final(self).wf(),
            final(self).pending_messages() == old(self).pending_messages(),
            final(self).batch() == old(self).batch(),
            final(self).exiting() == old(self).exiting(),
            match alias_of(old(self).windows(), surface) {
                Some(id) => {
                    &&& r matches Some(ready) && ready.window == id && !ready.is_new && ready.present
                        && ready.register is None
                    &&& exists|i: int|
                        0 <= i < old(self).windows().len() && old(self).windows()[i].id == id
                            && final(self).windows() == old(self).windows().update(
                            i,
                            (WindowEntry { width, height, ..old(self).windows()[i] }),
                        )
                    &&& ids_of(final(self).windows()) == ids_of(old(self).windows())
                    &&& alias_of(final(self).windows(), surface) == Some(id)
                    &&& final(self).pending_events() == old(self).pending_events()
                    &&& final(self).pending_targets() == old(self).pending_targets()
                    &&& final(self).next_window() == old(self).next_window()
                },
                None => if old(self).next_window() < u64::MAX {
                    let id = WindowId(old(self).next_window());
                    &&& r matches Some(ready) && ready.window == id && ready.is_new && !ready.present
                        && ready.register == (if is_created {
                        info
                    } else {
                        None
                    })
                    &&& lookup(old(self).windows(), id) is None
                    &&& final(self).windows() == old(self).windows().push(
                        fresh_entry(id, surface, width, height),
                    )
                    &&& final(self).pending_events() == old(self).pending_events().push(
                        SemanticEvent::Opened { width, height },
                    )
                    &&& final(self).pending_targets() == old(self).pending_targets().push(Some(id))
                    &&& final(self).next_window() == old(self).next_window() + 1
                } else {
                    &&& r is None
                    &&& final(self).windows() == old(self).windows()
                    &&& final(self).pending_events() == old(self).pending_events()
                    &&& final(self).pending_targets() == old(self).pending_targets()
                    &&& final(self).next_window() == old(self).next_window()
                },
            },
    {
        match self.windows.get_alias(surface) {
            Some(id) => {
                let ghost before = self.windows@;
                self.windows.set_size(id, width, height);
                proof {
                    let after = self.windows@;
                    let i = choose|i: int|
                        0 <= i < before.len() && before[i].id == id && after == before.update(
                            i,
                            (WindowEntry { width, height, ..before[i] }),
                        );
                    assert(ids_of(after) =~= ids_of(before));
                    assert(after[i].surface == surface) by {
                        let j = choose|j: int| 0 <= j < before.len() && #[trigger] before[j].surface == surface;
                        crate::registry::lemma_index_lookup(before, j);
                        crate::registry::lemma_index_lookup(before, i);
                    }
                    crate::registry::lemma_index_lookup(after, i);
                    assert forall|k: int| 0 <= k < after.len() implies (#[trigger] after[k]).id.0 < self.next_id by {
                        assert(after[k].id == before[k].id);
                    }
                }
                Some(SurfaceReady { window: id, is_new: false, present: true, register: None })
            },
            None => {
                if self.next_id == u64::MAX {
                    return None;
                }
                let id = WindowId(self.next_id);
                proof {
                    if lookup(self.windows@, id) is Some {
                        let i = choose|i: int| 0 <= i < self.windows@.len() && #[trigger] self.windows@[i].id == id;
                        assert(self.windows@[i].id.0 < self.next_id);
                    }
                }
                let ghost before = self.windows@;
                self.windows.insert(id, surface, width, height);
                self.next_id = self.next_id + 1;
                proof {
                    let after = self.windows@;
                    assert forall|k: int| 0 <= k < after.len() implies (#[trigger] after[k]).id.0 < self.next_id by {
                        if k < before.len() {
                            assert(after[k] == before[k]);
                        }
                    }
                }
                self.push_event(Some(id), SemanticEvent::Opened { width, height });
                let register = if is_created {
                    info
                } else {
                    None
                };
                Some(SurfaceReady { window: id, is_new: true, present: false, register })
            },
        }
    }

    /// Records the cursor shape that a draw of a window asked for, and queues a
    /// cursor change for the compositor when it differs from the last one.
    pub fn set_mouse_interaction(&mut self, id: WindowId, interaction: MouseInteraction) -> (r: bool)
        requires
            old(self).wf(),
        ensures
            final(self).wf(),
            r <==> (lookup(old(self).windows(), id) matches Some(e) && e.mouse_interaction != interaction),
            r ==> final(self).batch() == old(self).batch().push(LayerShellActions::Mouse(interaction)),
            !r ==> final(self).batch() == old(self).batch(),
            lookup(old(self).windows(), id) is None ==> final(self).windows() == old(self).windows(),
            lookup(old(self).windows(), id) is Some ==> exists|i: int|
                0 <= i < old(self).windows().len() && old(self).windows()[i].id == id
                    && final(self).windows() == old(self).windows().update(
                    i,
                    (WindowEntry { mouse_interaction: interaction, ..old(self).windows()[i] }),
                ),
            ids_of(final(self).windows()) == ids_of(old(self).windows()),
            final(self).pending_events() == old(self).pending_events(),
            final(self).pending_targets() == old(self).pending_targets(),
            final(self).pending_messages() == old(self).pending_messages(),
            final(self).exiting() == old(self).exiting(),
    {
        let ghost before = self.windows@;
        let changed = self.windows.set_mouse_interaction(id, interaction);
        proof {
            let after = self.windows@;
            if lookup(before, id) is Some {
                let i = choose|i: int|
                    0 <= i < before.len() && before[i].id == id && after == before.update(
                        i,
                        (WindowEntry { mouse_interaction: interaction, ..before[i] }),
                    );
                assert(ids_of(after) =~= ids_of(before));
                assert forall|k: int| 0 <= k < after.len() implies (#[trigger] after[k]).id.0 < self.next_id by {
                    assert(after[k].id == before[k].id);
                }
            }
        }
        if changed {
            self.actions.push(LayerShellActions::Mouse(interaction));
        }
        changed
    }

    /// An input event of a surface: the window it stands for records the pointer
    /// and modifiers, and the translated event is queued for that window. Events of
    /// surfaces that stand for no window are dropped.
    pub fn on_window_event(&mut self, surface: SurfaceId, event: WindowEvent<K>)
        requires
            old(self).wf(),
        ensures
            final(self).wf(),
            final(self).pending_messages() == old(self).pending_messages(),
            final(self).batch() == old(self).batch(),
            final(self).exiting() == old(self).exiting(),
            ids_of(final(self).windows()) == ids_of(old(self).windows()),
            match alias_of(old(self).windows(), surface) {
                None => final(self).windows() == old(self).windows() && final(self).pending_events()
                    == old(self).pending_events() && final(self).pending_targets() == old(self).pending_targets(),
                Some(id) => exists|i: int|
                    0 <= i < old(self).windows().len() && old(self).windows()[i].id == id && {
                        let entry = entry_after_input(old(self).windows()[i], event);
                        &&& final(self).windows() == old(self).windows().update(i, entry)
                        &&& match semantic_of(event, entry.modifiers) {
                            Some(ev) => final(self).pending_events() == old(self).pending_events().push(ev)
                                && final(self).pending_targets() == old(self).pending_targets().push(Some(id)),
                            None => final(self).pending_events() == old(self).pending_events()
                                && final(self).pending_targets() == old(self).pending_targets(),
                        }
                    },
            },
    {
        let id = match self.windows.get_alias(surface) {
            Some(id) => id,
            None => return,
        };
        let ghost before = self.windows@;
        self.windows.update_input(id, &event);
        let ghost after = self.windows@;
        let ghost i = choose|i: int|
            0 <= i < before.len() && before[i].id == id && after == before.update(
                i,
                entry_after_input(before[i], event),
            );
        proof {
            assert(ids_of(after) =~= ids_of(before));
            assert forall|k: int| 0 <= k < after.len() implies (#[trigger] after[k]).id.0 < self.next_id by {
                assert(after[k].id == before[k].id);
            }
            crate::registry::lemma_index_lookup(after, i);
        }
        let entry = match self.windows.get(id) {
            Some(e) => e,
            None => return,
        };
        assert(entry == after[i]);
        match window_event(event, entry.modifiers) {
            Some(ev) => self.push_event(Some(id), ev),
            None => {},
        }
    }

    /// A message that an asynchronous command produced for the application.
    pub fn on_user_event(&mut self, message: Message)
        requires
            old(self).wf(),
        ensures
            final(self).wf(),
            final(self).pending_messages() == old(self).pending_messages().push(message),
            final(self).windows() == old(self).windows(),
            final(self).pending_events() == old(self).pending_events(),
            final(self).pending_targets() == old(self).pending_targets(),
            final(self).batch() == old(self).batch(),
            final(self).exiting() == old(self).exiting(),
            final(self).next_window() == old(self).next_window(),
    {
        self.messages.push(message);
    }

    /// The positions of the pending events meant for a window.
    fn share(targets_vec: &Vec<Option<WindowId>>, id: WindowId) -> (r: Vec<usize>)
        ensures
            r@ == share_of(targets_vec@, id),
    {
        let mut r: Vec<usize> = Vec::new();
        let mut i: usize = 0;
        while i < targets_vec.len()
            invariant
                i <= targets_vec@.len(),
                r@ == share_upto(targets_vec@, id, i as nat),
            decreases targets_vec@.len() - i,
        {
            let meant = match targets_vec[i] {
                Some(w) => w == id,
                None => true,
            };
            if meant {
                r.push(i);
            }
            i += 1;
        }
        r
    }

    /// A dispatch tick. With no pending event and no pending message nothing
    /// happens. Otherwise the pending events leave the queue, and each registered
    /// window, in registration order, gets its share of them: the events meant for
    /// it and those meant for every window, in arrival order.
    pub fn begin_tick(&mut self) -> (r: Option<TickPlan<K>>)
        requires
            old(self).wf(),
        ensures
            final(self).wf(),
            r is None <==> old(self).pending_events().len() == 0 && old(self).pending_messages().len() == 0,
            r is None ==> *final(self) == *old(self),
            r matches Some(plan) ==> {
                &&& plan.events@ == old(self).pending_events()
                &&& plan.shares@.len() == old(self).windows().len()
                &&& forall|k: int|
                    0 <= k < plan.shares@.len() ==> {
                        let s = #[trigger] plan.shares@[k];
                        &&& s.window == old(self).windows()[k].id
                        &&& s.events@ == share_of(old(self).pending_targets(), s.window)
                        &&& s.update == (s.events@.len() > 0 || old(self).pending_messages().len() > 0)
                    }
                &&& final(self).pending_events().len() == 0
                &&& final(self).pending_targets().len() == 0
                &&& final(self).windows() == old(self).windows()
                &&& final(self).pending_messages() == old(self).pending_messages()
                &&& final(self).batch() == old(self).batch()
                &&& final(self).exiting() == old(self).exiting()
                &&& final(self).next_window() == old(self).next_window()
            },
    {
        if self.events.len() == 0 && self.messages.len() == 0 {
            return None;
        }
        let has_messages = self.messages.len() > 0;
        let mut shares: Vec<WindowShare> = Vec::new();
        let n = self.windows.len();
        let mut k: usize = 0;
        while k < n
            invariant
                n == self.windows@.len(),
                k <= n,
                shares@.len() == k,
                has_messages == (self.messages@.len() > 0),
                forall|j: int|
                    0 <= j < k ==> {
                        let s = #[trigger] shares@[j];
                        &&& s.window == self.windows@[j].id
                        &&& s.events@ == share_of(self.event_targets@, s.window)
                        &&& s.update == (s.events@.len() > 0 || has_messages)
                    },
            decreases n - k,
        {
            let id = self.windows.entry_at(k).id;
            let events = Self::share(&self.event_targets, id);
            let update = events.len() > 0 || has_messages;
            shares.push(WindowShare { window: id, events, update });
            k += 1;
        }
        let mut events: Vec<SemanticEvent<K>> = Vec::new();
        let mut event_targets: Vec<Option<WindowId>> = Vec::new();
        core::mem::swap(&mut self.events, &mut events);
        core::mem::swap(&mut self.event_targets, &mut event_targets);
        Some(TickPlan { events, shares })
    }

    /// Ends a dispatch tick after the windows' interfaces were updated. When an
    /// interface went stale or application messages are pending, the application
    /// must be updated: the pending messages leave the queue and come back, in
    /// arrival order. Otherwise `None` comes back and nothing changes.
    pub fn end_tick(&mut self, stale: bool) -> (r: Option<Vec<Message>>)
        requires
            old(self).wf(),
        ensures
            final(self).wf(),
            r is None <==> !stale && old(self).pending_messages().len() == 0,
            r is None ==> *final(self) == *old(self),
            r matches Some(ms) ==> ms@ == old(self).pending_messages() && final(self).pending_messages().len() == 0,
            final(self).windows() == old(self).windows(),
            final(self).pending_events() == old(self).pending_events(),
            final(self).pending_targets() == old(self).pending_targets(),
            final(self).batch() == old(self).batch(),
            final(self).exiting() == old(self).exiting(),
            final(self).next_window() == old(self).next_window(),
    {
        if !stale && self.messages.len() == 0 {
            return None;
        }
        let mut messages: Vec<Message> = Vec::new();
        core::mem::swap(&mut self.messages, &mut messages);
        Some(messages)
    }

    /// Ends an application update: every window is to be redrawn. `true` comes back
    /// when the application asked to exit, so that no further event is processed
    /// once the current batch has gone out.
    pub fn finish_update(&mut self) -> (r: bool)
        requires
            old(self).wf(),
        ensures
            final(self).wf(),
            r == old(self).exiting(),
            final(self).batch() == old(self).batch().push(LayerShellActions::RedrawAll),
            final(self).windows() == old(self).windows(),
            final(self).pending_events() == old(self).pending_events(),
            final(self).pending_targets() == old(self).pending_targets(),
            final(self).pending_messages() == old(self).pending_messages(),
            final(self).exiting() == old(self).exiting(),
            final(self).next_window() == old(self).next_window(),
    {
        self.actions.push(LayerShellActions::RedrawAll);
        self.should_exit
    }

    /// The compositor confirmed that a window's surface is gone: its entry leaves
    /// the registry. The entry comes back if there was one.
    pub fn on_window_removed(&mut self, id: WindowId) -> (r: Option<WindowEntry>)
        requires
            old(self).wf(),
        ensures
            final(self).wf(),
            r == lookup(old(self).windows(), id),
            lookup(final(self).windows(), id) is None,
            r is None ==> final(self).windows() == old(self).windows(),
            r is Some ==> exists|i: int|
                0 <= i < old(self).windows().len() && old(self).windows()[i].id == id && final(self).windows() == old(self).windows().remove(i),
            final(self).pending_events() == old(self).pending_events(),
            final(self).pending_targets() == old(self).pending_targets(),
            final(self).pending_messages() == old(self).pending_messages(),
            final(self).batch() == old(self).batch(),
            final(self).exiting() == old(self).exiting(),
            final(self).next_window() == old(self).next_window(),
    {
        let ghost before = self.windows@;
        let r = self.windows.remove(id);
        proof {
            let after = self.windows@;
            if r is Some {
                let i = choose|i: int|
                    0 <= i < before.len() && before[i].id == id && after == before.remove(i);
                assert forall|k: int| 0 <= k < after.len() implies (#[trigger] after[k]).id.0 < self.next_id by {
                    if k < i {
                        assert(after[k] == before[k]);
                    } else {
                        assert(after[k] == before[k + 1]);
                    }
                }
                if lookup(after, id) is Some {
                    let k = choose|k: int| 0 <= k < after.len() && #[trigger] after[k].id == id;
                    if k < i {
                        assert(after[k] == before[k]);
                    } else {
                        assert(after[k] == before[k + 1]);
                    }
                }
            }
        }
        r
    }

    /// A menu was asked for from a surface: it opens at the pointer's last position
    /// over the surface's window. Without a window or a known pointer position
    /// nothing happens.
    pub fn on_new_menu(&mut self, surface: SurfaceId, settings: NewMenuSettings, info: INFO) -> (r: bool)
        requires
            old(self).wf(),
        ensures
            final(self).wf(),
            r <==> (alias_of(old(self).windows(), surface) matches Some(id) && lookup(old(self).windows(), id)
                matches Some(e) && e.cursor is Some),
            r ==> {
                let id = alias_of(old(self).windows(), surface)->0;
                let pointer = lookup(old(self).windows(), id)->0.cursor->0;
                let (x, y) = menu_position(pointer, settings.height, settings.direction);
                final(self).batch() == old(self).batch().push(
                    LayerShellActions::NewMenu {
                        settings: NewPopupSettings {
                            width: settings.width,
                            height: settings.height,
                            x: x as i32,
                            y: y as i32,
                        },
                        info,
                    },
                )
            },
            !r ==> final(self).batch() == old(self).batch(),
            final(self).windows() == old(self).windows(),
            final(self).pending_events() == old(self).pending_events(),
            final(self).pending_targets() == old(self).pending_targets(),
            final(self).pending_messages() == old(self).pending_messages(),
            final(self).exiting() == old(self).exiting(),
            final(self).next_window() == old(self).next_window(),
    {
        let id = match self.windows.get_alias(surface) {
            Some(id) => id,
            None => return false,
        };
        let entry = match self.windows.get(id) {
            Some(e) => e,
            None => return false,
        };
        let pointer = match entry.cursor {
            Some(p) => p,
            None => return false,
        };
        let x = whole_pixels_of(pointer.x);
        let py = whole_pixels_of(pointer.y);
        let y = match settings.direction {
            MenuDirection::Up => {
                let lowered = py as i64 - settings.height as i64;
                if lowered >= i32::MIN as i64 {
                    lowered as i32
                } else {
                    i32::MIN
                }
            },
            MenuDirection::Down => py,
        };
        self.actions.push(
            LayerShellActions::NewMenu {
                settings: NewPopupSettings { width: settings.width, height: settings.height, x, y },
                info,
            },
        );
        true
    }

    /// Carries out the actions of a command that the application returned: window
    /// closes and layer-shell actions join the batch as one list of surface actions,
    /// closing the primary window sets the exit flag, and the rest comes back as work
    /// for the UI runtime.
    pub fn run_command<W>(&mut self, actions: Vec<CommandAction<INFO, W>>) -> (r: Vec<RuntimeWork<W>>)
        requires
            old(self).wf(),
        ensures
            final(self).wf(),
            r@ == runtime_work(old(self).windows(), actions@),
            final(self).exiting() == (old(self).exiting() || exits(old(self).windows(), actions@)),
            final(self).batch().len() == old(self).batch().len() + 1,
            final(self).batch().drop_last() == old(self).batch(),
            final(self).batch().last() matches LayerShellActions::CustomActionsWithId(list) && list@
                == surface_actions(old(self).windows(), actions@),
            final(self).windows() == old(self).windows(),
            final(self).pending_events() == old(self).pending_events(),
            final(self).pending_targets() == old(self).pending_targets(),
            final(self).pending_messages() == old(self).pending_messages(),
            final(self).next_window() == old(self).next_window(),
    {
        let outcome = translate_command(&self.windows, actions);
        if outcome.exit {
            self.should_exit = true;
        }
        self.actions.push(LayerShellActions::CustomActionsWithId(outcome.surface_actions));
        proof {
            assert(self.actions@.drop_last() =~= old(self).actions@);
        }
        outcome.work
    }

    /// Hands over the compositor actions of the current iteration, leaving the batch
    /// empty.
    pub fn take_actions(&mut self) -> (r: Vec<LayerShellActions<INFO>>)
        requires
            old(self).wf(),
        ensures
            final(self).wf(),
            r@ == old(self).batch(),
            final(self).batch().len() == 0,
            final(self).windows() == old(self).windows(),
            final(self).pending_events() == old(self).pending_events(),
            final(self).pending_targets() == old(self).pending_targets(),
            final(self).pending_messages() == old(self).pending_messages(),
            final(self).exiting() == old(self).exiting(),
            final(self).next_window() == old(self).next_window(),
    {
        let mut actions: Vec<LayerShellActions<INFO>> = Vec::new();
        core::mem::swap(&mut self.actions, &mut actions);
        actions
    }
}

/// A position in 1/256 of a logical pixel, in whole pixels, rounded toward zero.
pub fn whole_pixels_of(v: i32) -> (r: i32)
    ensures
        r == whole_pixels(v),
{
    if v >= 0 {
        v / 256
    } else {
        let magnitude = -(v as i64);
        -((magnitude / 256) as i32)
    }
}

/// Alias lookup and primary lookup of an engine's registry agree, whatever
/// sequence of window creations, resizes and removals led to it.
pub proof fn lemma_engine_lookups_agree<Message, INFO, K>(
    engine: Engine<Message, INFO, K>,
    surface: SurfaceId,
    id: WindowId,
)
    requires
        engine.wf(),
    ensures
        alias_of(engine.windows(), surface) == Some(id) <==> layer_id_of(engine.windows(), id) == Some(
            surface,
        ),
{
    lemma_alias_agrees(engine.windows(), surface, id);
}

} // verus!
