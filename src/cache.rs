//! The per-window interface slots: each window's interface is either live (built
//! into an interactive tree) or cached (torn down into its layout cache), never both.
//!
//! The slots are generic over the live form `L` and the cached form `C`; the UI
//! runtime supplies the operations that turn one into the other.
use vstd::prelude::*;
use crate::registry::{lookup, WindowEntry, WindowId, WindowManager};

verus! {

/// One window's interface.
#[derive(Debug)]
pub enum Interface<L, C> {
    Live(L),
    Cached(C),
}

/// The interfaces of the windows, at most one per window, in insertion order.
pub struct InterfaceCache<L, C> {
    ids: Vec<WindowId>,
    slots: Vec<Interface<L, C>>,
}

/// The windows of `ids` that are registered, in order.
pub open spec fn registered_ids(ids: Seq<WindowId>, windows: Seq<WindowEntry>) -> Seq<WindowId>
    decreases ids.len(),
{
    if ids.len() == 0 {
        Seq::empty()
    } else {
        let prev = registered_ids(ids.drop_last(), windows);
        if lookup(windows, ids.last()) is Some {
            prev.push(ids.last())
        } else {
            prev
        }
    }
}

impl<L, C> InterfaceCache<L, C> {
    /// The windows that have an interface, in insertion order.
    pub closed spec fn windows(&self) -> Seq<WindowId> {
        self.ids@
    }

    /// The interfaces, in the order of `windows`.
    pub closed spec fn interfaces(&self) -> Seq<Interface<L, C>> {
        self.slots@
    }

    pub open spec fn wf(&self) -> bool {
        &&& self.windows().len() == self.interfaces().len()
        &&& forall|i: int, j: int|
            0 <= i < self.windows().len() && 0 <= j < self.windows().len() && i != j ==> #[trigger] self.windows()[i]
                != #[trigger] self.windows()[j]
    }

    /// Every interface is live.
    pub open spec fn all_live(&self) -> bool {
        forall|i: int| 0 <= i < self.interfaces().len() ==> #[trigger] self.interfaces()[i] is Live
    }

    /// Every interface is cached.
    pub open spec fn all_cached(&self) -> bool {
        forall|i: int| 0 <= i < self.interfaces().len() ==> #[trigger] self.interfaces()[i] is Cached
    }

    pub fn new() -> (r: Self)
        ensures
            r.wf(),
            r.windows().len() == 0,
            r.interfaces().len() == 0,
    {
        InterfaceCache { ids: Vec::new(), slots: Vec::new() }
    }

    pub fn len(&self) -> (r: usize)
        requires
            self.wf(),
        ensures
            r == self.windows().len(),
    {
        self.ids.len()
    }

    fn position(&self, id: WindowId) -> (r: Option<usize>)
        requires
            self.wf(),
        ensures
            r matches Some(i) ==> i < self.windows().len() && self.windows()[i as int] == id,
            r is None ==> !self.windows().contains(id),
    {
        let mut i: usize = 0;
        while i < self.ids.len()
            invariant
                i <= self.ids@.len(),
                forall|j: int| 0 <= j < i ==> self.ids@[j] != id,
            decreases self.ids@.len() - i,
        {
            if self.ids[i] == id {
                return Some(i);
            }
            i += 1;
        }
        None
    }

    /// Takes a window's interface out, if it has one.
    pub fn take(&mut self, id: WindowId) -> (r: Option<Interface<L, C>>)
        requires
            old(self).wf(),
        ensures
            final(self).wf(),
            !final(self).windows().contains(id),
            r is None ==> !old(self).windows().contains(id) && final(self).windows() == old(self).windows()
                && final(self).interfaces() == old(self).interfaces(),
            r matches Some(x) ==> exists|i: int|
                0 <= i < old(self).windows().len() && old(self).windows()[i] == id && x == old(self).interfaces()[i] && final(self).windows() == old(self).windows().remove(i)
                    && final(self).interfaces() == old(self).interfaces().remove(i),
    {
        match self.position(id) {
            Some(i) => {
                let ghost before = self.ids@;
                self.ids.remove(i);
                let slot = self.slots.remove(i);
                proof {
                    let after = self.ids@;
                    assert(after == before.remove(i as int));
                    assert forall|a: int, b: int|
                        0 <= a < after.len() && 0 <= b < after.len() && a != b implies #[trigger] after[a]
                        != #[trigger] after[b] by {
                        let a2 = if a < i { a } else { a + 1 };
                        let b2 = if b < i { b } else { b + 1 };
                        assert(after[a] == before[a2] && after[b] == before[b2]);
                    }
                    if after.contains(id) {
                        let k = choose|k: int| 0 <= k < after.len() && after[k] == id;
                        let k2 = if k < i { k } else { k + 1 };
                        assert(after[k] == before[k2]);
                    }
                }
                Some(slot)
            },
            None => None,
        }
    }

    /// Gives a window its interface, in place of any it had; the window moves to the
    /// end of the order.
    pub fn put(&mut self, id: WindowId, interface: Interface<L, C>)
        requires
            old(self).wf(),
        ensures
            final(self).wf(),
            !old(self).windows().contains(id) ==> final(self).windows() == old(self).windows().push(id)
                && final(self).interfaces() == old(self).interfaces().push(interface),
            old(self).windows().contains(id) ==> exists|i: int|
                0 <= i < old(self).windows().len() && old(self).windows()[i] == id && final(self).windows()
                    == old(self).windows().remove(i).push(id) && final(self).interfaces() == old(self).interfaces().remove(i).push(interface),
    {
        let _ = self.take(id);
        let ghost mid = self.ids@;
        self.ids.push(id);
        self.slots.push(interface);
        proof {
            let after = self.ids@;
            assert forall|a: int, b: int|
                0 <= a < after.len() && 0 <= b < after.len() && a != b implies #[trigger] after[a]
                != #[trigger] after[b] by {
                if a < mid.len() && b < mid.len() {
                    assert(after[a] == mid[a] && after[b] == mid[b]);
                } else if a < mid.len() {
                    assert(after[a] == mid[a]);
                    assert(mid.contains(mid[a]));
                } else if b < mid.len() {
                    assert(after[b] == mid[b]);
                    assert(mid.contains(mid[b]));
                }
            }
        }
    }

    /// Tears every live interface down into its cache; cached ones stay as they are.
    pub fn dematerialize_all<F: Fn(L) -> C>(&mut self, into_cache: F)
        requires
            old(self).wf(),
            forall|l: L| into_cache.requires((l,)),
        ensures
            final(self).wf(),
            final(self).all_cached(),
            final(self).windows() == old(self).windows(),
            final(self).interfaces().len() == old(self).interfaces().len(),
            forall|i: int|
                0 <= i < old(self).interfaces().len() ==> match #[trigger] old(self).interfaces()[i] {
                    Interface::Cached(c) => final(self).interfaces()[i] == Interface::<L, C>::Cached(c),
                    Interface::Live(l) => final(self).interfaces()[i] matches Interface::Cached(c)
                        && into_cache.ensures((l,), c),
                },
    {
        let ghost all = self.slots@;
        let mut rest: Vec<Interface<L, C>> = Vec::new();
        core::mem::swap(&mut self.slots, &mut rest);
        let total = rest.len();
        let mut done: Vec<Interface<L, C>> = Vec::new();
        let mut k: usize = 0;
        while rest.len() > 0
            invariant
                all.len() == total,
                k + rest@.len() == total,
                rest@ == all.subrange(k as int, total as int),
                done@.len() == k,
                forall|i: int| 0 <= i < done@.len() ==> #[trigger] done@[i] is Cached,
                forall|i: int|
                    0 <= i < done@.len() ==> match #[trigger] all[i] {
                        Interface::Cached(c) => done@[i] == Interface::<L, C>::Cached(c),
                        Interface::Live(l) => done@[i] matches Interface::Cached(c) && into_cache.ensures((l,), c),
                    },
                forall|l: L| into_cache.requires((l,)),
            decreases rest@.len(),
        {
            let slot = rest.remove(0);
            proof {
                assert(slot == all[k as int]);
                assert(rest@ =~= all.subrange(k + 1, total as int));
            }
            let cached = match slot {
                Interface::Live(l) => Interface::Cached(into_cache(l)),
                Interface::Cached(c) => Interface::Cached(c),
            };
            done.push(cached);
            k += 1;
        }
        self.slots = done;
    }

}

/// A window's interface after a rebuild: a live one stays, a cached one becomes what
/// the build made of it for that window.
pub open spec fn rebuilt<L, C, F: Fn(WindowId, C) -> L>(
    id: WindowId,
    before: Interface<L, C>,
    after: Interface<L, C>,
    build: F,
) -> bool {
    match before {
        Interface::Live(l) => after == Interface::<L, C>::Live(l),
        Interface::Cached(c) => after matches Interface::Live(l) && build.ensures((id, c), l),
    }
}

/// Builds the interfaces of the registered windows: every cached interface of a
/// registered window becomes live, live ones stay as they are, and the interfaces of
/// windows that are no longer registered are dropped.
pub fn build_user_interfaces<L, C, F: Fn(WindowId, C) -> L>(
    windows: &WindowManager,
    cached: InterfaceCache<L, C>,
    build: F,
) -> (r: InterfaceCache<L, C>)
    requires
        cached.wf(),
        windows.wf(),
        forall|id: WindowId, c: C| build.requires((id, c)),
    ensures
        r.wf(),
        r.all_live(),
        r.windows() == registered_ids(cached.windows(), windows@),
        forall|i: int|
            0 <= i < r.windows().len() ==> exists|j: int|
                0 <= j < cached.windows().len() && cached.windows()[j] == r.windows()[i] && rebuilt(
                    r.windows()[i],
                    cached.interfaces()[j],
                    #[trigger] r.interfaces()[i],
                    build,
                ),
{
    let ghost all_ids = cached.ids@;
    let ghost all_slots = cached.slots@;
    let InterfaceCache { ids: mut rest_ids, slots: mut rest } = cached;
    let total = rest_ids.len();
    let mut ids: Vec<WindowId> = Vec::new();
    let mut slots: Vec<Interface<L, C>> = Vec::new();
    let mut k: usize = 0;
    while rest_ids.len() > 0
        invariant
            windows.wf(),
            all_ids.len() == total,
            forall|i: int, j: int|
                0 <= i < all_ids.len() && 0 <= j < all_ids.len() && i != j ==> #[trigger] all_ids[i]
                    != #[trigger] all_ids[j],
            k + rest_ids@.len() == total,
            rest_ids@.len() == rest@.len(),
            rest_ids@ == all_ids.subrange(k as int, total as int),
            all_slots.len() == total,
            rest@ == all_slots.subrange(k as int, total as int),
            forall|i: int|
                0 <= i < ids@.len() ==> exists|j: int|
                    0 <= j < k && all_ids[j] == ids@[i] && rebuilt(ids@[i], all_slots[j], #[trigger] slots@[i], build),
            ids@ == registered_ids(all_ids.subrange(0, k as int), windows@),
            ids@.len() == slots@.len(),
            forall|i: int| 0 <= i < slots@.len() ==> #[trigger] slots@[i] is Live,
            forall|i: int| 0 <= i < ids@.len() ==> all_ids.subrange(0, k as int).contains(#[trigger] ids@[i]),
            forall|i: int, j: int|
                0 <= i < ids@.len() && 0 <= j < ids@.len() && i != j ==> #[trigger] ids@[i] != #[trigger] ids@[j],
            forall|id: WindowId, c: C| build.requires((id, c)),
        decreases rest_ids@.len(),
    {
        let id = rest_ids.remove(0);
        let slot = rest.remove(0);
        proof {
            let prefix = all_ids.subrange(0, k + 1);
            assert(prefix.drop_last() =~= all_ids.subrange(0, k as int));
            assert(prefix.last() == id);
            assert(rest_ids@ =~= all_ids.subrange(k + 1, total as int));
            assert(slot == all_slots[k as int]);
            assert(rest@ =~= all_slots.subrange(k + 1, total as int));
            assert forall|i: int| 0 <= i < ids@.len() implies ids@[i] != id by {
                let j = choose|j: int| 0 <= j < k && all_ids.subrange(0, k as int)[j] == ids@[i];
                assert(all_ids[j] == ids@[i]);
                assert(all_ids[k as int] == id);
            }
            assert forall|i: int| 0 <= i < ids@.len() implies #[trigger] prefix.contains(ids@[i]) by {
                let j = choose|j: int| 0 <= j < k && all_ids.subrange(0, k as int)[j] == ids@[i];
                assert(prefix[j] == ids@[i]);
            }
            assert(prefix[k as int] == id);
        }
        if windows.get(id).is_some() {
            let live = match slot {
                Interface::Cached(c) => Interface::Live(build(id, c)),
                Interface::Live(l) => Interface::Live(l),
            };
            ids.push(id);
            slots.push(live);
        }
        k += 1;
    }
    proof {
        assert(all_ids.subrange(0, k as int) =~= all_ids);
    }
    InterfaceCache { ids, slots }
}

} // verus!
