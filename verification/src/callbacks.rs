//! The callback registries: tables from widget identifier (or identifier
//! and event pattern) to the handler that is armed for it.
//!
//! One table holds handlers of one shape, so a program keeps a table for
//! each shape it uses. A table holds at most one handler for a key.
//! Firing takes the handler out, calls it, and puts it back, which keeps
//! a widget's handler armed; a key that holds `after` names a deferred
//! action, which fires once.

use crate::chars::{chars_of, find, find_chars, same_text};
use vstd::prelude::*;
use vstd::string::*;

verus! {

/// A table of handlers of the type `H`, by key.
pub struct CallbackTable<H> {
    keys: Vec<String>,
    handlers: Vec<H>,
}

impl<H> View for CallbackTable<H> {
    type V = Map<Seq<char>, H>;

    closed spec fn view(&self) -> Map<Seq<char>, H> {
        Map::new(|key: Seq<char>| self.holds(key), |key: Seq<char>| self.handlers[self.slot(key)])
    }
}

/// A key of a deferred action, which fires once: one that holds `after`.
pub open spec fn is_one_shot(key: Seq<char>) -> bool {
    find(key, "after"@) is Some
}

/// The table after the handler of `key` was fired, whatever the shape of
/// the handlers: a deferred action is gone, any other handler is armed as
/// before.
pub open spec fn fired<H>(table: Map<Seq<char>, H>, key: Seq<char>) -> Map<Seq<char>, H> {
    if is_one_shot(key) {
        table.remove(key)
    } else {
        table
    }
}

impl<H> CallbackTable<H> {
    /// Every key has its handler, and no key stands twice.
    pub closed spec fn wf(&self) -> bool {
        &&& self.keys.len() == self.handlers.len()
        &&& forall|i: int, j: int|
            0 <= i < j < self.keys.len() ==> self.keys[i]@ != self.keys[j]@
    }

    spec fn holds(&self, key: Seq<char>) -> bool {
        exists|i: int| 0 <= i < self.keys.len() && self.keys[i]@ == key
    }

    spec fn slot(&self, key: Seq<char>) -> int {
        choose|i: int| 0 <= i < self.keys.len() && self.keys[i]@ == key
    }

    proof fn lemma_slot(&self, i: int)
        requires
            self.wf(),
            0 <= i < self.keys.len(),
        ensures
            self.holds(self.keys[i]@),
            self.slot(self.keys[i]@) == i,
            self@.contains_key(self.keys[i]@),
            self@[self.keys[i]@] == self.handlers[i],
    {
        let key = self.keys[i]@;
        let j = self.slot(key);
        assert(0 <= j < self.keys.len() && self.keys[j]@ == key);
    }

    /// An empty table.
    pub fn new() -> (table: Self)
        ensures
            table.wf(),
            table@ == Map::<Seq<char>, H>::empty(),
    {
        let table = CallbackTable { keys: Vec::new(), handlers: Vec::new() };
        assert(table@ =~= Map::<Seq<char>, H>::empty());
        table
    }

    fn find_key(&self, key: &str) -> (r: Option<usize>)
        requires
            self.wf(),
        ensures
            r is Some <==> self@.contains_key(key@),
            r matches Some(i) ==> i < self.keys.len() && self.keys[i as int]@ == key@
                && self@[key@] == self.handlers[i as int],
    {
        let mut i: usize = 0;
        while i < self.keys.len()
            invariant
                i <= self.keys.len(),
                self.wf(),
                forall|j: int| 0 <= j < i ==> self.keys[j]@ != key@,
            decreases self.keys.len() - i,
        {
            if same_text(self.keys[i].as_str(), key) {
                proof {
                    self.lemma_slot(i as int);
                }
                return Some(i);
            }
            i += 1;
        }
        assert(!self.holds(key@));
        None
    }

    /// Whether a handler is armed for `key`.
    pub fn contains_key(&self, key: &str) -> (r: bool)
        requires
            self.wf(),
        ensures
            r == self@.contains_key(key@),
    {
        self.find_key(key).is_some()
    }

    /// Arms `handler` for `key`, in place of the one that was armed, if
    /// one was.
    pub fn add(&mut self, key: &str, handler: H)
        requires
            old(self).wf(),
        ensures
            final(self).wf(),
            final(self)@ == old(self)@.insert(key@, handler),
    {
        match self.find_key(key) {
            Some(i) => {
                self.handlers.set(i, handler);
                assert(self.wf());
                assert forall|k: Seq<char>| self.holds(k) <==> old(self).holds(k) by {
                    if old(self).holds(k) {
                        assert(self.keys[old(self).slot(k)]@ == k);
                    }
                }
                assert forall|k: Seq<char>| #[trigger]
                    self@.contains_key(k) implies self@[k] == old(self)@.insert(key@, handler)[k] by {
                    let j = self.slot(k);
                    self.lemma_slot(j);
                    old(self).lemma_slot(j);
                }
                assert(self@ =~= old(self)@.insert(key@, handler));
            },
            None => {
                self.keys.push(String::from_str(key));
                self.handlers.push(handler);
                assert(self.wf());
                let ghost last = self.keys.len() - 1;
                assert forall|k: Seq<char>|
                    self.holds(k) <==> (old(self).holds(k) || k == key@) by {
                    if old(self).holds(k) {
                        assert(self.keys[old(self).slot(k)]@ == k);
                    }
                    if k == key@ {
                        assert(self.keys[last]@ == k);
                    }
                }
                assert forall|k: Seq<char>| #[trigger]
                    self@.contains_key(k) implies self@[k] == old(self)@.insert(key@, handler)[k] by {
                    let j = self.slot(k);
                    self.lemma_slot(j);
                    if j < last {
                        old(self).lemma_slot(j);
                    }
                }
                assert(self@ =~= old(self)@.insert(key@, handler));
            },
        }
    }

    /// Takes the handler of `key` out of the table, if one is armed.
    pub fn take(&mut self, key: &str) -> (r: Option<H>)
        requires
            old(self).wf(),
        ensures
            final(self).wf(),
            r is Some <==> old(self)@.contains_key(key@),
            r matches Some(handler) ==> handler == old(self)@[key@],
            final(self)@ == old(self)@.remove(key@),
    {
        match self.find_key(key) {
            Some(i) => {
                let ghost last = self.keys.len() - 1;
                self.keys.swap_remove(i);
                let handler = self.handlers.swap_remove(i);
                assert(self.wf());
                assert forall|k: Seq<char>|
                    self.holds(k) <==> (old(self).holds(k) && k != key@) by {
                    if old(self).holds(k) && k != key@ {
                        let j = old(self).slot(k);
                        if j == last {
                            assert(self.keys[i as int]@ == k);
                        } else {
                            assert(self.keys[j]@ == k);
                        }
                    }
                    if self.holds(k) {
                        let j = self.slot(k);
                        if j == i {
                            assert(old(self).keys[last]@ == k);
                        } else {
                            assert(old(self).keys[j]@ == k);
                        }
                    }
                }
                assert forall|k: Seq<char>| #[trigger]
                    self@.contains_key(k) implies self@[k] == old(self)@.remove(key@)[k] by {
                    let j = self.slot(k);
                    self.lemma_slot(j);
                    if j == i {
                        old(self).lemma_slot(last);
                    } else {
                        old(self).lemma_slot(j);
                    }
                }
                assert(self@ =~= old(self)@.remove(key@));
                Some(handler)
            },
            None => {
                assert(self@ =~= old(self)@.remove(key@));
                None
            },
        }
    }
}

/// Whether `key` names a deferred action, which fires once.
pub fn one_shot(key: &str) -> (r: bool)
    ensures
        r == is_one_shot(key@),
{
    let chars = chars_of(key);
    let mark = chars_of("after");
    find_chars(chars.as_slice(), mark.as_slice()).is_some()
}

/// Arms the handler `callback` for the widget `wid`.
pub fn add_callback0<F: Fn()>(table: &mut CallbackTable<F>, wid: &str, callback: F)
    requires
        old(table).wf(),
    ensures
        final(table).wf(),
        final(table)@ == old(table)@.insert(wid@, callback),
{
    table.add(wid, callback)
}

/// Takes the handler of the widget `wid` out of the table.
pub fn get_callback0<F: Fn()>(table: &mut CallbackTable<F>, wid: &str) -> (r: Option<F>)
    requires
        old(table).wf(),
    ensures
        final(table).wf(),
        r is Some <==> old(table)@.contains_key(wid@),
        r matches Some(handler) ==> handler == old(table)@[wid@],
        final(table)@ == old(table)@.remove(wid@),
{
    table.take(wid)
}

/// Fires the handler of the widget `wid`, if one is armed: the handler is
/// called, and stays armed unless `wid` names a deferred action.
pub fn eval_callback0<F: Fn()>(table: &mut CallbackTable<F>, wid: &str)
    requires
        old(table).wf(),
        old(table)@.contains_key(wid@) ==> call_requires(old(table)@[wid@], ()),
    ensures
        final(table).wf(),
        old(table)@.contains_key(wid@) ==> call_ensures(old(table)@[wid@], (), ()),
        final(table)@ == fired(old(table)@, wid@),
{
    if let Some(command) = get_callback0(table, wid) {
        command();
        // after commands apply once only; a handler armed meanwhile stays
        if !one_shot(wid) && !table.contains_key(wid) {
            add_callback0(table, wid, command);
            assert(table@ =~= old(table)@);
        }
    } else {
        assert(table@ =~= old(table)@);
    }
}

/// Arms the handler `callback`, which takes the widget's new state, for
/// the widget `wid`.
pub fn add_callback1_bool<F: Fn(bool)>(table: &mut CallbackTable<F>, wid: &str, callback: F)
    requires
        old(table).wf(),
    ensures
        final(table).wf(),
        final(table)@ == old(table)@.insert(wid@, callback),
{
    table.add(wid, callback)
}

/// Takes the handler of the widget `wid` out of the table.
pub fn get_callback1_bool<F: Fn(bool)>(table: &mut CallbackTable<F>, wid: &str) -> (r: Option<F>)
    requires
        old(table).wf(),
    ensures
        final(table).wf(),
        r is Some <==> old(table)@.contains_key(wid@),
        r matches Some(handler) ==> handler == old(table)@[wid@],
        final(table)@ == old(table)@.remove(wid@),
{
    table.take(wid)
}

/// Fires the handler of the widget `wid` with the state `value`, if one
/// is armed: the handler is called, and stays armed unless `wid` names a
/// deferred action.
pub fn eval_callback1_bool<F: Fn(bool)>(table: &mut CallbackTable<F>, wid: &str, value: bool)
    requires
        old(table).wf(),
        old(table)@.contains_key(wid@) ==> call_requires(old(table)@[wid@], (value,)),
    ensures
        final(table).wf(),
        old(table)@.contains_key(wid@) ==> call_ensures(old(table)@[wid@], (value,), ()),
        final(table)@ == fired(old(table)@, wid@),
{
    eval_callback1(table, wid, value)
}

/// Fires the handler of the key `wid` with the argument `value`, if one
/// is armed: the handler is called, and stays armed unless `wid` names a
/// deferred action. This serves the tables of handlers that take a value
/// or a structured event.
pub fn eval_callback1<A, F: Fn(A)>(table: &mut CallbackTable<F>, wid: &str, value: A)
    requires
        old(table).wf(),
        old(table)@.contains_key(wid@) ==> call_requires(old(table)@[wid@], (value,)),
    ensures
        final(table).wf(),
        old(table)@.contains_key(wid@) ==> call_ensures(old(table)@[wid@], (value,), ()),
        final(table)@ == fired(old(table)@, wid@),
{
    if let Some(command) = table.take(wid) {
        command(value);
        // after commands apply once only; a handler armed meanwhile stays
        if !one_shot(wid) && !table.contains_key(wid) {
            table.add(wid, command);
            assert(table@ =~= old(table)@);
        }
    } else {
        assert(table@ =~= old(table)@);
    }
}

/// A handler of a key that names no deferred action is armed after any
/// number of firings, and it is the same handler; the handler of a
/// deferred action is gone after the first.
pub proof fn lemma_fired_stays_armed<H>(table: Map<Seq<char>, H>, key: Seq<char>)
    requires
        table.contains_key(key),
    ensures
        !is_one_shot(key) ==> fired(table, key).contains_key(key) && fired(table, key)[key]
            == table[key],
        is_one_shot(key) ==> !fired(table, key).contains_key(key),
        fired(fired(table, key), key) == fired(table, key),
{
    assert(table.remove(key).remove(key) =~= table.remove(key));
}

} // verus!
