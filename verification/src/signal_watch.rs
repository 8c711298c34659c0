//! A watchable state cell: the publish/subscribe abstraction the
//! synchronization controller sits on.
//!
//! A watcher registers a callback and gets back a stop token.  Registration
//! never runs the callback immediately: callbacks are due only when the value
//! is next written.  Stopping a watcher is idempotent and irreversible — its
//! slot is cleared, never reused.  The cell itself never runs anything: a
//! write returns the callbacks now due, in registration order, and the caller
//! invokes them.

use vstd::prelude::*;

verus! {

/// The callbacks still watching, in registration order.
pub open spec fn live_callbacks(ws: Seq<Option<u64>>) -> Seq<u64>
    decreases ws.len(),
{
    if ws.len() == 0 {
        Seq::empty()
    } else {
        live_callbacks(ws.drop_last()) + match ws.last() {
            Option::Some(cb) => seq![cb],
            Option::None => Seq::<u64>::empty(),
        }
    }
}

/// A value cell whose writes notify registered watchers.
pub struct WatchedCell<T> {
    pub value: T,
    pub watchers: Vec<Option<u64>>,
}

impl<T> WatchedCell<T> {
    /// A cell holding `value` with nobody watching.
    pub fn new(value: T) -> (r: WatchedCell<T>)
        ensures
            r.value == value,
            r.watchers@.len() == 0,
    {
        WatchedCell { value, watchers: Vec::new() }
    }

    /// Register a callback; it is not due now, only on later writes.  The
    /// returned token stops exactly this registration.
    pub fn watch(&mut self, cb: u64) -> (token: usize)
        requires
            old(self).watchers@.len() < usize::MAX,
        ensures
            final(self).value == old(self).value,
            final(self).watchers@ == old(self).watchers@.push(Some(cb)),
            token == old(self).watchers@.len(),
    {
        let token = self.watchers.len();
        self.watchers.push(Option::Some(cb));
        token
    }

    /// Stop the watcher the token names: its slot is cleared and never
    /// reused.  Stopping twice, or with a foreign token, changes nothing
    /// beyond clearing that slot again.
    pub fn unwatch(&mut self, token: usize)
        ensures
            final(self).value == old(self).value,
            token < old(self).watchers@.len() ==> final(self).watchers@ == old(
                self,
            ).watchers@.update(token as int, None),
            token >= old(self).watchers@.len() ==> final(self).watchers@ == old(
                self,
            ).watchers@,
    {
        if token < self.watchers.len() {
            self.watchers.set(token, Option::None);
        }
    }

    /// Write a value and collect the callbacks now due, in registration
    /// order.  The caller runs them; the cell only decides.
    pub fn set(&mut self, value: T) -> (due: Vec<u64>)
        ensures
            final(self).value == value,
            final(self).watchers == old(self).watchers,
            due@ == live_callbacks(old(self).watchers@),
    {
        self.value = value;
        let mut due: Vec<u64> = Vec::new();
        let mut i: usize = 0;
        proof {
            assert(self.watchers@.subrange(0, 0) =~= Seq::<Option<u64>>::empty());
        }
        #[verifier::loop_isolation(false)]
        while i < self.watchers.len()
            invariant
                i <= self.watchers@.len(),
                due@ == live_callbacks(self.watchers@.subrange(0, i as int)),
            decreases self.watchers@.len() - i,
        {
            let ghost pre = self.watchers@.subrange(0, i as int);
            let ghost cur = self.watchers@.subrange(0, i + 1);
            proof {
                assert(cur.drop_last() =~= pre);
                assert(cur.last() == self.watchers@[i as int]);
            }
            match self.watchers[i] {
                Option::Some(cb) => {
                    due.push(cb);
                    proof {
                        assert(due@ =~= live_callbacks(cur));
                    }
                },
                Option::None => {
                    proof {
                        assert(due@ =~= live_callbacks(cur));
                    }
                },
            }
            i = i + 1;
        }
        proof {
            assert(self.watchers@.subrange(0, self.watchers@.len() as int)
                =~= self.watchers@);
        }
        due
    }
}

/// A stopped watcher is never due again: no due list of the cleared cell
/// contains what only that slot carried — the due list loses exactly the
/// stopped slot's contribution and keeps every other slot's.
pub proof fn lemma_unwatch_silences(ws: Seq<Option<u64>>, token: int)
    requires
        0 <= token < ws.len(),
    ensures
        live_callbacks(ws.update(token, None)) == live_callbacks(ws.subrange(0, token))
            + live_callbacks(ws.subrange(token + 1, ws.len() as int)),
    decreases ws.len(),
{
    let updated = ws.update(token, None);
    if token == ws.len() - 1 {
        assert(updated.drop_last() =~= ws.subrange(0, token));
        assert(updated.last() is None);
        assert(ws.subrange(token + 1, ws.len() as int) =~= Seq::<Option<u64>>::empty());
        assert(live_callbacks(updated) =~= live_callbacks(ws.subrange(0, token)));
    } else {
        lemma_unwatch_silences(ws.drop_last(), token);
        assert(updated.drop_last() =~= ws.drop_last().update(token, None));
        assert(updated.last() == ws.last());
        assert(ws.drop_last().subrange(0, token) =~= ws.subrange(0, token));
        assert(ws.drop_last().subrange(token + 1, ws.len() - 1)
            =~= ws.subrange(token + 1, ws.len() - 1));
        assert(ws.subrange(token + 1, ws.len() as int).drop_last()
            =~= ws.subrange(token + 1, ws.len() - 1));
        assert(ws.subrange(token + 1, ws.len() as int).last() == ws.last());
        assert(live_callbacks(ws.subrange(0, token)) + live_callbacks(
            ws.subrange(token + 1, ws.len() as int),
        ) =~= live_callbacks(ws.subrange(0, token)) + live_callbacks(
            ws.subrange(token + 1, ws.len() - 1),
        ) + match ws.last() {
            Option::Some(cb) => seq![cb],
            Option::None => Seq::<u64>::empty(),
        });
    }
}

} // verus!
