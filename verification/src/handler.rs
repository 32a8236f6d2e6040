//! The handler registry: which action answers which command key.

use vstd::prelude::*;
use crate::decoder::{frame_view, FrameView};
use crate::error::HandlerError;

verus! {

/// `handler`, called with an argument that reads `value`, can return `outcome`.
pub open spec fn handler_returns<H: Fn(&str) -> Result<(), HandlerError>>(
    handler: H,
    value: Seq<char>,
    outcome: Result<(), HandlerError>,
) -> bool {
    exists|arg: &str| arg@ == value && #[trigger] call_ensures(handler, (arg,), outcome)
}

/// `handler` may be called with every argument string.
pub open spec fn accepts_all<H: Fn(&str) -> Result<(), HandlerError>>(handler: H) -> bool {
    forall|arg: &str| #[trigger] call_requires(handler, (arg,))
}

/// What dispatching one pair may give: the handler's own result where the key
/// is registered, success where it is not.
pub open spec fn pair_outcome<H: Fn(&str) -> Result<(), HandlerError>>(
    handlers: Map<Seq<char>, H>,
    pair: (Seq<char>, Seq<char>),
    outcome: Result<(), HandlerError>,
) -> bool {
    if handlers.contains_key(pair.0) {
        handler_returns(handlers[pair.0], pair.1, outcome)
    } else {
        outcome is Ok
    }
}

/// What dispatching a frame may give. The pairs are served in order. Success
/// means that every pair succeeded; a failure is the failure of one pair, and
/// every pair before that one succeeded.
pub open spec fn frame_outcome<H: Fn(&str) -> Result<(), HandlerError>>(
    handlers: Map<Seq<char>, H>,
    frame: FrameView,
    outcome: Result<(), HandlerError>,
) -> bool {
    match outcome {
        Ok(_) => forall|i: int|
            0 <= i < frame.len() ==> pair_outcome(handlers, #[trigger] frame[i], Ok(())),
        Err(e) => exists|i: int|
            0 <= i < frame.len() && pair_outcome(handlers, #[trigger] frame[i], Err(e))
                && forall|j: int|
                0 <= j < i ==> pair_outcome(handlers, #[trigger] frame[j], Ok(())),
    }
}

/// One registration.
struct Entry<H> {
    key: String,
    handler: H,
}

/// The map that a list of registrations stands for: later entries override earlier ones.
spec fn entries_map<H>(entries: Seq<Entry<H>>) -> Map<Seq<char>, H>
    decreases entries.len(),
{
    if entries.len() == 0 {
        Map::empty()
    } else {
        entries_map(entries.drop_last()).insert(entries.last().key@, entries.last().handler)
    }
}

/// No key is registered twice.
spec fn distinct_keys<H>(entries: Seq<Entry<H>>) -> bool {
    forall|i: int, j: int|
        0 <= i < j < entries.len() ==> (#[trigger] entries[i]).key@ != (#[trigger] entries[j]).key@
}

/// An entry of a list without repeated keys is what the list's map holds for its key,
/// and the map holds no key that is not in the list.
proof fn lemma_entries_map<H>(entries: Seq<Entry<H>>)
    requires
        distinct_keys(entries),
    ensures
        forall|i: int|
            0 <= i < entries.len() ==> entries_map(entries).contains_key(
                (#[trigger] entries[i]).key@,
            ) && entries_map(entries)[entries[i].key@] == entries[i].handler,
        forall|k: Seq<char>| #[trigger]
            entries_map(entries).contains_key(k) ==> exists|i: int|
                0 <= i < entries.len() && (#[trigger] entries[i]).key@ == k,
    decreases entries.len(),
{
    if entries.len() > 0 {
        let front = entries.drop_last();
        assert forall|i: int, j: int| 0 <= i < j < front.len() implies (#[trigger] front[i]).key@
            != (#[trigger] front[j]).key@ by {
            assert(front[i] == entries[i] && front[j] == entries[j]);
        }
        lemma_entries_map(front);
        assert forall|i: int| 0 <= i < entries.len() implies entries_map(entries).contains_key(
            (#[trigger] entries[i]).key@,
        ) && entries_map(entries)[entries[i].key@] == entries[i].handler by {
            if i < entries.len() - 1 {
                assert(front[i] == entries[i]);
                assert(entries[i].key@ != entries[entries.len() - 1].key@);
            }
        }
        assert forall|k: Seq<char>| #[trigger]
            entries_map(entries).contains_key(k) implies exists|i: int|
            0 <= i < entries.len() && (#[trigger] entries[i]).key@ == k by {
            if k == entries.last().key@ {
                assert(entries[entries.len() - 1].key@ == k);
            } else {
                assert(entries_map(front).contains_key(k));
                let i = choose|i: int| 0 <= i < front.len() && (#[trigger] front[i]).key@ == k;
                assert(entries[i] == front[i]);
            }
        }
    }
}

/// Replacing the handler of a registered key is an insertion into the map.
proof fn lemma_entries_map_update<H>(entries: Seq<Entry<H>>, at: int, entry: Entry<H>)
    requires
        distinct_keys(entries),
        0 <= at < entries.len(),
        entries[at].key@ == entry.key@,
    ensures
        distinct_keys(entries.update(at, entry)),
        entries_map(entries.update(at, entry)) == entries_map(entries).insert(
            entry.key@,
            entry.handler,
        ),
{
    let updated = entries.update(at, entry);
    assert forall|i: int, j: int| 0 <= i < j < updated.len() implies (#[trigger] updated[i]).key@
        != (#[trigger] updated[j]).key@ by {
        assert(updated[i].key@ == entries[i].key@);
        assert(updated[j].key@ == entries[j].key@);
    }
    lemma_entries_map(entries);
    lemma_entries_map(updated);
    let before = entries_map(entries).insert(entry.key@, entry.handler);
    let after = entries_map(updated);
    assert forall|k: Seq<char>| before.contains_key(k) <==> after.contains_key(k) by {
        if before.contains_key(k) {
            if k == entry.key@ {
                assert(updated[at].key@ == k);
            } else {
                let i = choose|i: int| 0 <= i < entries.len() && (#[trigger] entries[i]).key@ == k;
                assert(updated[i].key@ == k);
            }
        }
        if after.contains_key(k) {
            let i = choose|i: int| 0 <= i < updated.len() && (#[trigger] updated[i]).key@ == k;
            assert(entries[i].key@ == k);
        }
    }
    assert forall|k: Seq<char>| before.contains_key(k) implies before[k] == after[k] by {
        if k == entry.key@ {
            assert(updated[at].key@ == k);
        } else {
            let i = choose|i: int| 0 <= i < entries.len() && (#[trigger] entries[i]).key@ == k;
            assert(i != at);
            assert(updated[i] == entries[i]);
        }
    }
    assert(before =~= after);
}

/// The registered handlers, by command key. A key has at most one handler:
/// registering it again replaces the handler.
pub struct HandlerRegistry<H: Fn(&str) -> Result<(), HandlerError>> {
    entries: Vec<Entry<H>>,
}

impl<H: Fn(&str) -> Result<(), HandlerError>> View for HandlerRegistry<H> {
    type V = Map<Seq<char>, H>;

    closed spec fn view(&self) -> Map<Seq<char>, H> {
        entries_map(self.entries@)
    }
}

impl<H: Fn(&str) -> Result<(), HandlerError>> HandlerRegistry<H> {
    #[verifier::type_invariant]
    spec fn well_formed(self) -> bool {
        &&& distinct_keys(self.entries@)
        &&& forall|i: int|
            0 <= i < self.entries@.len() ==> accepts_all((#[trigger] self.entries@[i]).handler)
    }

    /// A registry without handlers.
    pub fn new() -> (registry: Self)
        ensures
            registry@ == Map::<Seq<char>, H>::empty(),
    {
        HandlerRegistry { entries: Vec::new() }
    }

    /// Position of `key` among the entries, if it is registered.
    fn position(&self, key: &String) -> (at: Option<usize>)
        ensures
            match at {
                Some(i) => i < self.entries@.len() && self.entries@[i as int].key@ == key@,
                None => !self@.contains_key(key@),
            },
    {
        proof {
            use_type_invariant(self);
            lemma_entries_map(self.entries@);
        }
        let n: usize = self.entries.len();
        let mut i: usize = 0;
        while i < n
            invariant
                n == self.entries@.len(),
                i <= n,
                forall|j: int| 0 <= j < i ==> (#[trigger] self.entries@[j]).key@ != key@,
            decreases n - i,
        {
            if self.entries[i].key == *key {
                return Some(i);
            }
            i += 1;
        }
        None
    }

    /// Registers `handler` for `key`, in place of any handler registered for it before.
    pub fn register(&mut self, key: &str, handler: H)
        requires
            accepts_all(handler),
        ensures
            final(self)@ == old(self)@.insert(key@, handler),
    {
        proof {
            use_type_invariant(&*self);
        }
        let key = key.to_owned();
        let entry = Entry { key, handler };
        match self.position(&entry.key) {
            Some(i) => {
                proof {
                    lemma_entries_map_update(self.entries@, i as int, entry);
                }
                let mut entries: Vec<Entry<H>> = Vec::new();
                core::mem::swap(&mut self.entries, &mut entries);
                entries.set(i, entry);
                core::mem::swap(&mut self.entries, &mut entries);
            },
            None => {
                proof {
                    lemma_entries_map(self.entries@);
                    assert(self.entries@.push(entry).drop_last() =~= self.entries@);
                }
                let mut entries: Vec<Entry<H>> = Vec::new();
                core::mem::swap(&mut self.entries, &mut entries);
                entries.push(entry);
                core::mem::swap(&mut self.entries, &mut entries);
            },
        }
    }

    /// The handler registered for `key`, if there is one.
    pub fn lookup(&self, key: &str) -> (found: Option<&H>)
        ensures
            match found {
                Some(handler) => self@.contains_key(key@) && *handler == self@[key@]
                    && accepts_all(*handler),
                None => !self@.contains_key(key@),
            },
    {
        proof {
            use_type_invariant(self);
            lemma_entries_map(self.entries@);
        }
        let key = key.to_owned();
        match self.position(&key) {
            Some(i) => Some(&self.entries[i].handler),
            None => None,
        }
    }

    /// Whether a handler is registered for `key`.
    pub fn contains(&self, key: &str) -> (found: bool)
        ensures
            found == self@.contains_key(key@),
    {
        self.lookup(key).is_some()
    }

    /// Serves one pair: calls the handler registered for `key` with `value`
    /// and hands back its result; does nothing where no handler is registered.
    pub fn dispatch(&self, key: &str, value: &str) -> (outcome: Result<(), HandlerError>)
        ensures
            pair_outcome(self@, (key@, value@), outcome),
    {
        match self.lookup(key) {
            Some(handler) => handler(value),
            None => Ok(()),
        }
    }

    /// Serves the pairs of a frame in order and stops at the first failure.
    pub fn dispatch_frame(&self, frame: &Vec<(String, String)>) -> (outcome: Result<
        (),
        HandlerError,
    >)
        ensures
            frame_outcome(self@, frame_view(frame@), outcome),
    {
        let n: usize = frame.len();
        let mut i: usize = 0;
        while i < n
            invariant
                n == frame@.len(),
                i <= n,
                forall|j: int|
                    0 <= j < i ==> pair_outcome(self@, #[trigger] frame_view(frame@)[j], Ok(())),
            decreases n - i,
        {
            let outcome = self.dispatch(frame[i].0.as_str(), frame[i].1.as_str());
            assert(frame_view(frame@)[i as int] == (frame@[i as int].0@, frame@[i as int].1@));
            match outcome {
                Ok(()) => {},
                Err(e) => {
                    return Err(e);
                },
            }
            assert(outcome->Ok_0 == ());
            i += 1;
        }
        Ok(())
    }
}

} // verus!
