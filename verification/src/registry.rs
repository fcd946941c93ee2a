//! The authoritative table from a concrete (key code, modifier state) pair
//! to the callback that the pair should reach.
//!
//! Keys are exact: a lookup matches only the state a grab was recorded
//! under, with no fuzzy modifier matching.  Recording a second callback
//! under a pair that already has one silently overwrites it: the last
//! registration wins.

use vstd::prelude::*;

use std::collections::HashMap;

use crate::options::KeyMapOptions;
use crate::parse::{parse_spec, CanonicalBinding};

verus! {

broadcast use vstd::std_specs::hash::group_hash_axioms;

/// A handle to a callback owned by the embedding.  The registry stores and
/// hands back handles; the callbacks themselves never enter the library.
#[derive(Debug, Clone, Copy, PartialEq, Eq, Structural)]
pub struct CallbackId(pub usize);

/// One registered binding: the string it was declared with, its display
/// metadata, its canonical form, and its callback handle.
#[derive(Debug, Clone)]
pub struct KeyMap {
    pub options: KeyMapOptions,
    pub s: String,
    pub map: CanonicalBinding,
    pub cb: CallbackId,
}

impl KeyMap {
    /// The canonical form is well formed.
    pub open spec fn wf(self) -> bool {
        self.map.wf()
    }
}

/// The bindings gathered at configuration time, in registration order.
pub struct KeyMaps(pub Vec<KeyMap>);

impl Default for KeyMaps {
    /// No bindings yet.
    fn default() -> (r: KeyMaps)
        ensures
            r.0@.len() == 0,
    {
        KeyMaps(Vec::new())
    }
}

impl KeyMaps {
    /// Append one binding.
    pub fn push(&mut self, m: KeyMap)
        ensures
            final(self).0@ == old(self).0@.push(m),
    {
        self.0.push(m);
    }

    /// How many bindings are gathered.
    pub fn len(&self) -> (n: usize)
        ensures
            n == self.0@.len(),
    {
        self.0.len()
    }

    /// The binding at position `i`.
    pub fn get(&self, i: usize) -> (m: &KeyMap)
        requires
            i < self.0@.len(),
        ensures
            *m == self.0@[i as int],
    {
        &self.0[i]
    }

    /// Register one binding: parse the combination string and, if it has a
    /// canonical form, gather the record; a string that does not parse is
    /// dropped silently and nothing changes.
    pub fn register_binding(&mut self, s: String, cb: CallbackId, options: KeyMapOptions) -> (ok:
        bool)
        ensures
            ok == (parse_spec(s@) is Ok),
            ok ==> final(self).0@ == old(self).0@.push(
                (KeyMap { options, s, map: parse_spec(s@)->Ok_0, cb }),
            ),
            !ok ==> final(self).0@ == old(self).0@,
            ok ==> final(self).0@.last().wf(),
    {
        match CanonicalBinding::parse(s.as_str()) {
            Ok(map) => {
                self.0.push(KeyMap { options, s, map, cb });
                true
            },
            Err(_) => false,
        }
    }
}

/// The packed registry key for a (key code, modifier state) pair.
pub open spec fn key_of(code: i32, state: u32) -> u64 {
    ((code as u32) as u64) << 32 | (state as u64)
}

/// Distinct (code, state) pairs pack to distinct keys.
pub proof fn lemma_key_of_injective(c1: i32, s1: u32, c2: i32, s2: u32)
    ensures
        key_of(c1, s1) == key_of(c2, s2) ==> c1 == c2 && s1 == s2,
{
    assert((((c1 as u32) as u64) << 32 | (s1 as u64)) == (((c2 as u32) as u64) << 32 | (s2
        as u64)) ==> c1 == c2 && s1 == s2) by (bit_vector);
}

fn pack_key(code: i32, state: u32) -> (k: u64)
    ensures
        k == key_of(code, state),
{
    (((code as u32) as u64) << 32) | (state as u64)
}

/// The table from packed (code, state) keys to callback handles.
pub struct BindingRegistry {
    handlers: HashMap<u64, CallbackId>,
}

impl View for BindingRegistry {
    type V = Map<u64, CallbackId>;

    closed spec fn view(&self) -> Map<u64, CallbackId> {
        self.handlers@
    }
}

impl BindingRegistry {
    /// An empty registry.
    pub fn new() -> (r: BindingRegistry)
        ensures
            r@ == Map::<u64, CallbackId>::empty(),
    {
        BindingRegistry { handlers: HashMap::new() }
    }

    /// Record `cb` under the pair (`code`, `state`).  A record already
    /// under that exact pair is overwritten: the last registration wins.
    pub fn insert(&mut self, code: i32, state: u32, cb: CallbackId)
        ensures
            final(self)@ == old(self)@.insert(key_of(code, state), cb),
    {
        let k = pack_key(code, state);
        self.handlers.insert(k, cb);
    }

    /// The handle recorded under exactly this pair, if any.
    pub fn lookup(&self, code: i32, state: u32) -> (r: Option<CallbackId>)
        ensures
            r == (if self@.contains_key(key_of(code, state)) {
                Some(self@[key_of(code, state)])
            } else {
                None::<CallbackId>
            }),
    {
        let k = pack_key(code, state);
        match self.handlers.get(&k) {
            Some(cb) => Some(*cb),
            None => None,
        }
    }
}

/// Recording is last-writer-wins: after two records under one key, only
/// the second is reachable, whatever was recorded before.
pub proof fn lemma_insert_last_writer_wins(
    r: Map<u64, CallbackId>,
    k: u64,
    first: CallbackId,
    second: CallbackId,
)
    ensures
        r.insert(k, first).insert(k, second).contains_key(k),
        r.insert(k, first).insert(k, second)[k] == second,
        forall|k2: u64| k2 != k ==> r.insert(k, first).insert(k, second).contains_key(k2)
            == r.contains_key(k2),
{
}

} // verus!
