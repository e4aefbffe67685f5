//! The session registry: at most one live session for each key.

use crate::protocol::{ConnectionKey, KeyView};
use vstd::prelude::*;

verus! {

/// One open session: the database name and URL it was opened with, and the
/// handle that the driver gave for it.
pub struct Connection<H> {
    pub name: String,
    pub url: String,
    pub internal: H,
}

struct Slot<H> {
    key: ConnectionKey,
    session: Connection<H>,
}

/// A mapping from keys to sessions in which no key occurs twice.
pub struct SessionRegistry<H> {
    slots: Vec<Slot<H>>,
}

/// Whether the slot at `place` holds `key`.
spec fn held_at<H>(slots: Seq<Slot<H>>, key: KeyView, place: int) -> bool {
    0 <= place < slots.len() && slots[place].key@ == key
}

/// Whether some slot holds `key`.
spec fn holds<H>(slots: Seq<Slot<H>>, key: KeyView) -> bool {
    exists|place: int| held_at(slots, key, place)
}

/// The place of `key` among the slots.
spec fn place_of<H>(slots: Seq<Slot<H>>, key: KeyView) -> int {
    choose|place: int| held_at(slots, key, place)
}

spec fn distinct_keys<H>(slots: Seq<Slot<H>>) -> bool {
    forall|i: int, j: int|
        0 <= i < j < slots.len() ==> (#[trigger] slots[i]).key@ != (#[trigger] slots[j]).key@
}

spec fn as_map<H>(slots: Seq<Slot<H>>) -> Map<KeyView, Connection<H>> {
    Map::new(
        |key: KeyView| holds(slots, key),
        |key: KeyView| slots[place_of(slots, key)].session,
    )
}

proof fn lemma_place<H>(slots: Seq<Slot<H>>, i: int)
    requires
        distinct_keys(slots),
        0 <= i < slots.len(),
    ensures
        holds(slots, slots[i].key@),
        place_of(slots, slots[i].key@) == i,
        as_map(slots).contains_key(slots[i].key@),
        as_map(slots)[slots[i].key@] == slots[i].session,
{
    let key = slots[i].key@;
    assert(held_at(slots, key, i));
    let p = place_of(slots, key);
    assert(held_at(slots, key, p));
    if p < i {
        assert(slots[p].key@ != slots[i].key@);
    } else if i < p {
        assert(slots[i].key@ != slots[p].key@);
    }
}

proof fn lemma_added<H>(slots: Seq<Slot<H>>, slot: Slot<H>)
    requires
        distinct_keys(slots),
        !holds(slots, slot.key@),
    ensures
        distinct_keys(slots.push(slot)),
        as_map(slots.push(slot)) == as_map(slots).insert(slot.key@, slot.session),
{
    let longer = slots.push(slot);
    let last = slots.len() as int;
    assert forall|i: int, j: int| 0 <= i < j < longer.len() implies (#[trigger] longer[i]).key@
        != (#[trigger] longer[j]).key@ by {
        if j < last {
            assert(slots[i].key@ != slots[j].key@);
        } else {
            assert(!held_at(slots, slot.key@, i));
        }
    }
    assert forall|key: KeyView|
        as_map(longer).contains_key(key) == as_map(slots).insert(
            slot.key@,
            slot.session,
        ).contains_key(key) by {
        if holds(slots, key) {
            let i = place_of(slots, key);
            assert(held_at(longer, key, i));
        }
        if holds(longer, key) {
            let i = place_of(longer, key);
            if i < last {
                assert(held_at(slots, key, i));
            }
        }
        assert(held_at(longer, slot.key@, last));
    }
    assert forall|key: KeyView| #[trigger] as_map(longer).contains_key(key) implies as_map(
        longer,
    )[key] == as_map(slots).insert(slot.key@, slot.session)[key] by {
        let i = place_of(longer, key);
        assert(held_at(longer, key, i));
        lemma_place(longer, i);
        if i < last {
            lemma_place(slots, i);
        }
    }
    assert(as_map(longer) =~= as_map(slots).insert(slot.key@, slot.session));
}

proof fn lemma_removed<H>(slots: Seq<Slot<H>>, at: int)
    requires
        distinct_keys(slots),
        0 <= at < slots.len(),
    ensures
        distinct_keys(slots.remove(at)),
        as_map(slots.remove(at)) == as_map(slots).remove(slots[at].key@),
{
    let shorter = slots.remove(at);
    let gone = slots[at].key@;
    assert forall|i: int| 0 <= i < shorter.len() implies #[trigger] shorter[i] == slots[if i < at {
        i
    } else {
        i + 1
    }] by {}
    assert forall|i: int, j: int| 0 <= i < j < shorter.len() implies (#[trigger] shorter[i]).key@
        != (#[trigger] shorter[j]).key@ by {
        let a = if i < at { i } else { i + 1 };
        let b = if j < at { j } else { j + 1 };
        assert(slots[a].key@ != slots[b].key@);
    }
    assert forall|key: KeyView|
        as_map(shorter).contains_key(key) == as_map(slots).remove(gone).contains_key(key) by {
        if holds(shorter, key) {
            let i = place_of(shorter, key);
            assert(held_at(shorter, key, i));
            let a = if i < at { i } else { i + 1 };
            assert(held_at(slots, key, a));
            if a < at {
                assert(slots[a].key@ != slots[at].key@);
            } else {
                assert(slots[at].key@ != slots[a].key@);
            }
        }
        if holds(slots, key) && key != gone {
            let a = place_of(slots, key);
            assert(held_at(slots, key, a));
            let i = if a < at { a } else { a - 1 };
            assert(held_at(shorter, key, i));
        }
    }
    assert forall|key: KeyView| #[trigger] as_map(shorter).contains_key(key) implies as_map(
        shorter,
    )[key] == as_map(slots).remove(gone)[key] by {
        let i = place_of(shorter, key);
        assert(held_at(shorter, key, i));
        lemma_place(shorter, i);
        let a = if i < at { i } else { i + 1 };
        lemma_place(slots, a);
    }
    assert(as_map(shorter) =~= as_map(slots).remove(gone));
}

proof fn lemma_replaced<H>(slots: Seq<Slot<H>>, at: int, slot: Slot<H>)
    requires
        distinct_keys(slots),
        0 <= at < slots.len(),
        slot.key@ == slots[at].key@,
    ensures
        distinct_keys(slots.update(at, slot)),
        as_map(slots.update(at, slot)) == as_map(slots).insert(slot.key@, slot.session),
{
    let changed = slots.update(at, slot);
    assert forall|i: int, j: int| 0 <= i < j < changed.len() implies (#[trigger] changed[i]).key@
        != (#[trigger] changed[j]).key@ by {
        assert(slots[i].key@ != slots[j].key@);
    }
    lemma_place(slots, at);
    assert forall|key: KeyView|
        as_map(changed).contains_key(key) == as_map(slots).insert(
            slot.key@,
            slot.session,
        ).contains_key(key) by {
        if holds(slots, key) {
            let i = place_of(slots, key);
            assert(held_at(changed, key, i));
        }
        if holds(changed, key) {
            let i = place_of(changed, key);
            assert(held_at(slots, key, i));
        }
    }
    assert forall|key: KeyView| #[trigger] as_map(changed).contains_key(key) implies as_map(
        changed,
    )[key] == as_map(slots).insert(slot.key@, slot.session)[key] by {
        let i = place_of(changed, key);
        assert(held_at(changed, key, i));
        lemma_place(changed, i);
        lemma_place(slots, i);
    }
    assert(as_map(changed) =~= as_map(slots).insert(slot.key@, slot.session));
}

impl<H> View for SessionRegistry<H> {
    type V = Map<KeyView, Connection<H>>;

    closed spec fn view(&self) -> Map<KeyView, Connection<H>> {
        as_map(self.slots@)
    }
}

impl<H> SessionRegistry<H> {
    /// No key has two sessions.
    pub closed spec fn wf(&self) -> bool {
        distinct_keys(self.slots@)
    }

    /// A registry without sessions.
    pub fn new() -> (registry: Self)
        ensures
            registry.wf(),
            registry@ == Map::<KeyView, Connection<H>>::empty(),
    {
        let registry = SessionRegistry { slots: Vec::new() };
        proof {
            assert(registry@ =~= Map::<KeyView, Connection<H>>::empty());
        }
        registry
    }

    fn position(&self, key: &ConnectionKey) -> (place: Option<usize>)
        ensures
            match place {
                Some(i) => held_at(self.slots@, key@, i as int),
                None => !holds(self.slots@, key@),
            },
    {
        let mut i: usize = 0;
        while i < self.slots.len()
            invariant
                i <= self.slots@.len(),
                forall|j: int| 0 <= j < i ==> !held_at(self.slots@, key@, j),
            decreases self.slots@.len() - i,
        {
            if self.slots[i].key.same_as(key) {
                return Some(i);
            }
            i = i + 1;
        }
        None
    }

    /// Whether a session is registered under `key`.
    pub fn contains_key(&self, key: &ConnectionKey) -> (found: bool)
        ensures
            found == self@.contains_key(key@),
    {
        self.position(key).is_some()
    }

    /// The session registered under `key`, if there is one.
    pub fn lookup(&self, key: &ConnectionKey) -> (session: Option<&Connection<H>>)
        requires
            self.wf(),
        ensures
            match session {
                Some(found) => self@.contains_key(key@) && *found == self@[key@],
                None => !self@.contains_key(key@),
            },
    {
        match self.position(key) {
            Some(i) => {
                proof {
                    lemma_place(self.slots@, i as int);
                }
                Some(&self.slots[i].session)
            },
            None => None,
        }
    }

    /// The session registered under `key`, for use by the driver. What the
    /// caller leaves in it is what the registry then holds under `key`.
    pub fn lookup_mut(&mut self, key: &ConnectionKey) -> (session: Option<&mut Connection<H>>)
        requires
            old(self).wf(),
        ensures
            final(self).wf(),
            match session {
                Some(found) => old(self)@.contains_key(key@) && *found == old(self)@[key@]
                    && final(self)@ == old(self)@.insert(key@, *final(found)),
                None => !old(self)@.contains_key(key@) && final(self)@ == old(self)@,
            },
    {
        match self.position(key) {
            Some(i) => {
                proof {
                    lemma_place(self.slots@, i as int);
                    assert forall|after: Connection<H>|
                        distinct_keys(
                            self.slots@.update(
                                i as int,
                                Slot { key: self.slots@[i as int].key, session: after },
                            ),
                        ) && as_map(
                            self.slots@.update(
                                i as int,
                                Slot { key: self.slots@[i as int].key, session: after },
                            ),
                        ) == as_map(self.slots@).insert(key@, after) by {
                        lemma_replaced(
                            self.slots@,
                            i as int,
                            Slot { key: self.slots@[i as int].key, session: after },
                        );
                    }
                }
                Some(&mut self.slots[i].session)
            },
            None => None,
        }
    }

    /// Registers `session` under `key` unless the key already has a session;
    /// says whether it was registered.
    pub fn register(&mut self, key: ConnectionKey, session: Connection<H>) -> (added: bool)
        requires
            old(self).wf(),
        ensures
            final(self).wf(),
            added == !old(self)@.contains_key(key@),
            final(self)@ == if added {
                old(self)@.insert(key@, session)
            } else {
                old(self)@
            },
    {
        if self.position(&key).is_some() {
            return false;
        }
        proof {
            lemma_added(self.slots@, Slot { key, session });
        }
        self.slots.push(Slot { key, session });
        true
    }

    /// Removes the session registered under `key` and hands it out; without
    /// such a session nothing changes.
    pub fn evict(&mut self, key: &ConnectionKey) -> (session: Option<Connection<H>>)
        requires
            old(self).wf(),
        ensures
            final(self).wf(),
            final(self)@ == old(self)@.remove(key@),
            session == if old(self)@.contains_key(key@) {
                Some(old(self)@[key@])
            } else {
                None
            },
    {
        match self.position(key) {
            Some(i) => {
                proof {
                    lemma_place(self.slots@, i as int);
                    lemma_removed(self.slots@, i as int);
                }
                let slot = self.slots.remove(i);
                Some(slot.session)
            },
            None => {
                proof {
                    assert(self@.remove(key@) =~= self@);
                }
                None
            },
        }
    }
}

} // verus!
