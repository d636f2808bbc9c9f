//! The window registry: which UI window stands for which compositor surface, and the
//! per-window state the engine keeps.
use vstd::prelude::*;
use crate::cursor::MouseInteraction;
use crate::event::{LogicalPoint, Modifiers, WindowEvent};

verus! {

/// The UI runtime's identifier of a window.
#[derive(Clone, Copy, Debug, PartialEq, Eq, Hash, Structural)]
pub struct WindowId(pub u64);

/// The number of the application's primary window.
pub const MAIN_WINDOW: u64 = 0;

impl WindowId {
    /// The application's primary window.
    pub fn main() -> (r: WindowId)
        ensures
            r.0 == MAIN_WINDOW,
    {
        WindowId(MAIN_WINDOW)
    }

    pub fn is_main(&self) -> (r: bool)
        ensures
            r == (self.0 == MAIN_WINDOW),
    {
        self.0 == MAIN_WINDOW
    }
}

/// The compositor client's identifier of a surface.
#[derive(Clone, Copy, Debug, PartialEq, Eq, Hash, Structural)]
pub struct SurfaceId(pub u64);

/// What the engine keeps of one window.
#[derive(Clone, Copy, Debug, PartialEq, Eq, Structural)]
pub struct WindowEntry {
    pub id: WindowId,
    pub surface: SurfaceId,
    pub width: u32,
    pub height: u32,
    /// The cursor shape last asked for over this window.
    pub mouse_interaction: MouseInteraction,
    /// Where the pointer was last seen over this window.
    pub cursor: Option<LogicalPoint>,
    pub modifiers: Modifiers,
}

pub open spec fn no_modifiers() -> Modifiers {
    Modifiers { shift: false, control: false, alt: false, logo: false }
}

/// The entry of a freshly registered window.
pub open spec fn fresh_entry(id: WindowId, surface: SurfaceId, width: u32, height: u32) -> WindowEntry {
    WindowEntry {
        id,
        surface,
        width,
        height,
        mouse_interaction: MouseInteraction::Plain,
        cursor: None,
        modifiers: no_modifiers(),
    }
}

/// The input state of a window after an event: the pointer position follows
/// enter, motion and leave; the modifiers follow their changes.
pub open spec fn entry_after_input<K>(e: WindowEntry, event: WindowEvent<K>) -> WindowEntry {
    match event {
        WindowEvent::CursorEnter { x, y } => WindowEntry { cursor: Some(LogicalPoint { x, y }), ..e },
        WindowEvent::CursorMoved { x, y } => WindowEntry { cursor: Some(LogicalPoint { x, y }), ..e },
        WindowEvent::CursorLeft => WindowEntry { cursor: None, ..e },
        WindowEvent::ModifiersChanged(m) => WindowEntry { modifiers: m, ..e },
        _ => e,
    }
}

/// The registered windows, in the order they were registered.
pub struct WindowManager {
    entries: Vec<WindowEntry>,
}

impl View for WindowManager {
    type V = Seq<WindowEntry>;

    closed spec fn view(&self) -> Seq<WindowEntry> {
        self.entries@
    }
}

/// No two entries share a window or a surface.
pub open spec fn entries_wf(s: Seq<WindowEntry>) -> bool {
    &&& forall|i: int, j: int|
        0 <= i < s.len() && 0 <= j < s.len() && i != j ==> #[trigger] s[i].id != #[trigger] s[j].id
    &&& forall|i: int, j: int|
        0 <= i < s.len() && 0 <= j < s.len() && i != j ==> #[trigger] s[i].surface
            != #[trigger] s[j].surface
}

/// The entry of a window, if it is registered.
pub open spec fn lookup(s: Seq<WindowEntry>, id: WindowId) -> Option<WindowEntry> {
    if exists|i: int| 0 <= i < s.len() && #[trigger] s[i].id == id {
        Some(s[choose|i: int| 0 <= i < s.len() && #[trigger] s[i].id == id])
    } else {
        None
    }
}

/// The window that a surface stands for, if any.
pub open spec fn alias_of(s: Seq<WindowEntry>, surface: SurfaceId) -> Option<WindowId> {
    if exists|i: int| 0 <= i < s.len() && #[trigger] s[i].surface == surface {
        Some(s[choose|i: int| 0 <= i < s.len() && #[trigger] s[i].surface == surface].id)
    } else {
        None
    }
}

/// The surface of a window, if it is registered.
pub open spec fn layer_id_of(s: Seq<WindowEntry>, id: WindowId) -> Option<SurfaceId> {
    match lookup(s, id) {
        Some(e) => Some(e.surface),
        None => None,
    }
}

/// The windows that are registered.
pub open spec fn ids_of(s: Seq<WindowEntry>) -> Seq<WindowId> {
    s.map_values(|e: WindowEntry| e.id)
}

/// In a well-formed registry the entry at an index is the one found for its window
/// and for its surface.
pub proof fn lemma_index_lookup(s: Seq<WindowEntry>, i: int)
    requires
        entries_wf(s),
        0 <= i < s.len(),
    ensures
        lookup(s, s[i].id) == Some(s[i]),
        alias_of(s, s[i].surface) == Some(s[i].id),
{
}

/// Alias lookup and primary lookup agree: a surface stands for a window exactly
/// when that window is registered with that surface.
pub proof fn lemma_alias_agrees(s: Seq<WindowEntry>, surface: SurfaceId, id: WindowId)
    requires
        entries_wf(s),
    ensures
        alias_of(s, surface) == Some(id) <==> layer_id_of(s, id) == Some(surface),
{
    if alias_of(s, surface) == Some(id) {
        let i = choose|i: int| 0 <= i < s.len() && #[trigger] s[i].surface == surface;
        lemma_index_lookup(s, i);
    }
    if layer_id_of(s, id) == Some(surface) {
        let i = choose|i: int| 0 <= i < s.len() && #[trigger] s[i].id == id;
        lemma_index_lookup(s, i);
    }
}

impl WindowManager {
    pub open spec fn wf(&self) -> bool {
        entries_wf(self@)
    }

    pub fn new() -> (r: Self)
        ensures
            r@ == Seq::<WindowEntry>::empty(),
            r.wf(),
    {
        WindowManager { entries: Vec::new() }
    }

    pub fn len(&self) -> (r: usize)
        ensures
            r == self@.len(),
    {
        self.entries.len()
    }

    /// The entry at a position of the registration order.
    pub fn entry_at(&self, i: usize) -> (r: WindowEntry)
        requires
            i < self@.len(),
        ensures
            r == self@[i as int],
    {
        self.entries[i]
    }

    /// The position of a window in the registration order.
    pub fn position(&self, id: WindowId) -> (r: Option<usize>)
        requires
            self.wf(),
        ensures
            r is None <==> lookup(self@, id) is None,
            r matches Some(i) ==> i < self@.len() && self@[i as int].id == id && lookup(self@, id)
                == Some(self@[i as int]),
    {
        let mut i: usize = 0;
        while i < self.entries.len()
            invariant
                self.wf(),
                i <= self@.len(),
                forall|j: int| 0 <= j < i ==> #[trigger] self@[j].id != id,
            decreases self@.len() - i,
        {
            if self.entries[i].id == id {
                proof {
                    lemma_index_lookup(self@, i as int);
                }
                return Some(i);
            }
            i += 1;
        }
        None
    }

    /// The position of the window that a surface stands for.
    pub fn position_of_surface(&self, surface: SurfaceId) -> (r: Option<usize>)
        requires
            self.wf(),
        ensures
            r is None <==> alias_of(self@, surface) is None,
            r matches Some(i) ==> i < self@.len() && self@[i as int].surface == surface
                && alias_of(self@, surface) == Some(self@[i as int].id),
    {
        let mut i: usize = 0;
        while i < self.entries.len()
            invariant
                self.wf(),
                i <= self@.len(),
                forall|j: int| 0 <= j < i ==> #[trigger] self@[j].surface != surface,
            decreases self@.len() - i,
        {
            if self.entries[i].surface == surface {
                proof {
                    lemma_index_lookup(self@, i as int);
                }
                return Some(i);
            }
            i += 1;
        }
        None
    }

    /// The entry of a window.
    pub fn get(&self, id: WindowId) -> (r: Option<WindowEntry>)
        requires
            self.wf(),
        ensures
            r == lookup(self@, id),
    {
        match self.position(id) {
            Some(i) => Some(self.entries[i]),
            None => None,
        }
    }

    /// The window that a compositor surface stands for.
    pub fn get_alias(&self, surface: SurfaceId) -> (r: Option<WindowId>)
        requires
            self.wf(),
        ensures
            r == alias_of(self@, surface),
    {
        match self.position_of_surface(surface) {
            Some(i) => Some(self.entries[i].id),
            None => None,
        }
    }

    /// The compositor surface of a window.
    pub fn get_layer_id(&self, id: WindowId) -> (r: Option<SurfaceId>)
        requires
            self.wf(),
        ensures
            r == layer_id_of(self@, id),
    {
        match self.position(id) {
            Some(i) => Some(self.entries[i].surface),
            None => None,
        }
    }

    /// Registers a window for a surface. A window or a surface that is already
    /// registered is refused: nothing changes and `false` comes back.
    pub fn insert(&mut self, id: WindowId, surface: SurfaceId, width: u32, height: u32) -> (r: bool)
        requires
            old(self).wf(),
        ensures
            final(self).wf(),
            r <==> lookup(old(self)@, id) is None && alias_of(old(self)@, surface) is None,
            r ==> final(self)@ == old(self)@.push(fresh_entry(id, surface, width, height)),
            !r ==> final(self)@ == old(self)@,
    {
        if self.position(id).is_some() || self.position_of_surface(surface).is_some() {
            return false;
        }
        let entry = WindowEntry {
            id,
            surface,
            width,
            height,
            mouse_interaction: MouseInteraction::Plain,
            cursor: None,
            modifiers: Modifiers { shift: false, control: false, alt: false, logo: false },
        };
        self.entries.push(entry);
        true
    }

    /// Drops a window's entry and hands it back, if it was registered.
    pub fn remove(&mut self, id: WindowId) -> (r: Option<WindowEntry>)
        requires
            old(self).wf(),
        ensures
            final(self).wf(),
            r == lookup(old(self)@, id),
            r is None ==> final(self)@ == old(self)@,
            r is Some ==> exists|i: int|
                0 <= i < old(self)@.len() && old(self)@[i].id == id && final(self)@ == old(self)@.remove(i),
    {
        match self.position(id) {
            Some(i) => {
                let e = self.entries.remove(i);
                proof {
                    let s = old(self)@;
                    let t = self@;
                    assert(t == s.remove(i as int));
                    assert forall|a: int, b: int|
                        0 <= a < t.len() && 0 <= b < t.len() && a != b implies #[trigger] t[a].id
                        != #[trigger] t[b].id && t[a].surface != t[b].surface by {
                        let a2 = if a < i { a } else { a + 1 };
                        let b2 = if b < i { b } else { b + 1 };
                        assert(t[a] == s[a2] && t[b] == s[b2]);
                    }
                }
                Some(e)
            },
            None => None,
        }
    }

    /// Replaces the entry at a position with one for the same window and surface.
    fn replace_at(&mut self, i: usize, e: WindowEntry)
        requires
            old(self).wf(),
            i < old(self)@.len(),
            e.id == old(self)@[i as int].id,
            e.surface == old(self)@[i as int].surface,
        ensures
            final(self).wf(),
            final(self)@ == old(self)@.update(i as int, e),
    {
        self.entries.set(i, e);
        proof {
            let s = old(self)@;
            let t = self@;
            assert forall|a: int, b: int|
                0 <= a < t.len() && 0 <= b < t.len() && a != b implies #[trigger] t[a].id
                != #[trigger] t[b].id && t[a].surface != t[b].surface by {
                assert(t[a].id == s[a].id && t[a].surface == s[a].surface);
                assert(t[b].id == s[b].id && t[b].surface == s[b].surface);
            }
        }
    }

    /// Records a window's new logical size. Its identity and surface stay.
    pub fn set_size(&mut self, id: WindowId, width: u32, height: u32) -> (r: bool)
        requires
            old(self).wf(),
        ensures
            final(self).wf(),
            r <==> lookup(old(self)@, id) is Some,
            !r ==> final(self)@ == old(self)@,
            r ==> exists|i: int|
                0 <= i < old(self)@.len() && old(self)@[i].id == id && final(self)@ == old(self)@.update(i, WindowEntry { width, height, ..old(self)@[i] }),
    {
        match self.position(id) {
            Some(i) => {
                let e = self.entries[i];
                self.replace_at(i, WindowEntry { width, height, ..e });
                true
            },
            None => false,
        }
    }

    /// Records what an input event tells of a window's pointer and modifiers.
    pub fn update_input<K>(&mut self, id: WindowId, event: &WindowEvent<K>) -> (r: bool)
        requires
            old(self).wf(),
        ensures
            final(self).wf(),
            r <==> lookup(old(self)@, id) is Some,
            !r ==> final(self)@ == old(self)@,
            r ==> exists|i: int|
                0 <= i < old(self)@.len() && old(self)@[i].id == id && final(self)@ == old(self)@.update(i, entry_after_input(old(self)@[i], *event)),
    {
        match self.position(id) {
            Some(i) => {
                let e = self.entries[i];
                let next = match event {
                    WindowEvent::CursorEnter { x, y } => WindowEntry {
                        cursor: Some(LogicalPoint { x: *x, y: *y }),
                        ..e
                    },
                    WindowEvent::CursorMoved { x, y } => WindowEntry {
                        cursor: Some(LogicalPoint { x: *x, y: *y }),
                        ..e
                    },
                    WindowEvent::CursorLeft => WindowEntry { cursor: None, ..e },
                    WindowEvent::ModifiersChanged(m) => WindowEntry { modifiers: *m, ..e },
                    _ => e,
                };
                self.replace_at(i, next);
                true
            },
            None => false,
        }
    }

    /// Records the cursor shape asked for over a window; `true` when it differs
    /// from the one asked for before.
    pub fn set_mouse_interaction(&mut self, id: WindowId, interaction: MouseInteraction) -> (r: bool)
        requires
            old(self).wf(),
        ensures
            final(self).wf(),
            r <==> (lookup(old(self)@, id) matches Some(e) && e.mouse_interaction != interaction),
            lookup(old(self)@, id) is None ==> final(self)@ == old(self)@,
            lookup(old(self)@, id) is Some ==> exists|i: int|
                0 <= i < old(self)@.len() && old(self)@[i].id == id && final(self)@ == old(self)@.update(i, WindowEntry { mouse_interaction: interaction, ..old(self)@[i] }),
    {
        match self.position(id) {
            Some(i) => {
                let e = self.entries[i];
                let changed = e.mouse_interaction != interaction;
                self.replace_at(i, WindowEntry { mouse_interaction: interaction, ..e });
                changed
            },
            None => false,
        }
    }

    /// The registered windows, in registration order.
    pub fn ids(&self) -> (r: Vec<WindowId>)
        ensures
            r@ == ids_of(self@),
    {
        let mut r: Vec<WindowId> = Vec::new();
        let mut i: usize = 0;
        while i < self.entries.len()
            invariant
                i <= self@.len(),
                r@ == ids_of(self@.subrange(0, i as int)),
            decreases self@.len() - i,
        {
            r.push(self.entries[i].id);
            proof {
                assert(self@.subrange(0, i + 1) == self@.subrange(0, i as int).push(self@[i as int]));
            }
            i += 1;
        }
        proof {
            assert(self@.subrange(0, self@.len() as int) == self@);
        }
        r
    }
}

} // verus!
