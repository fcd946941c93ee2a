//! Ordering the gathered bindings for the listing command: sorted by group
//! label, with ungrouped bindings last.

use vstd::prelude::*;

use vstd::seq_lib::group_to_multiset_ensures;

use crate::options::KeyMapOptions;
use crate::registry::{KeyMap, KeyMaps};

verus! {

broadcast use group_to_multiset_ensures;

/// Lexicographic order on character sequences, by code point.
pub open spec fn lex_le(a: Seq<char>, b: Seq<char>) -> bool
    decreases a.len(),
{
    if a.len() == 0 {
        true
    } else if b.len() == 0 {
        false
    } else if (a[0] as u32) < (b[0] as u32) {
        true
    } else if (b[0] as u32) < (a[0] as u32) {
        false
    } else {
        lex_le(a.drop_first(), b.drop_first())
    }
}

/// Any two character sequences are ordered one way or the other.
pub proof fn lemma_lex_le_total(a: Seq<char>, b: Seq<char>)
    ensures
        lex_le(a, b) || lex_le(b, a),
    decreases a.len(),
{
    if a.len() > 0 && b.len() > 0 && (a[0] as u32) == (b[0] as u32) {
        lemma_lex_le_total(a.drop_first(), b.drop_first());
    }
}

/// Lexicographic order is transitive.
pub proof fn lemma_lex_le_trans(a: Seq<char>, b: Seq<char>, c: Seq<char>)
    requires
        lex_le(a, b),
        lex_le(b, c),
    ensures
        lex_le(a, c),
    decreases a.len(),
{
    if a.len() > 0 && b.len() > 0 && c.len() > 0 && (a[0] as u32) == (b[0] as u32) && (b[0] as u32)
        == (c[0] as u32) {
        lemma_lex_le_trans(a.drop_first(), b.drop_first(), c.drop_first());
    }
}

/// The listing order on group labels: labelled groups in lexicographic
/// order, unlabelled entries last.
pub open spec fn group_le(a: Option<Seq<char>>, b: Option<Seq<char>>) -> bool {
    match (a, b) {
        (Option::None, Option::None) => true,
        (Option::Some(_), Option::None) => true,
        (Option::None, Option::Some(_)) => false,
        (Option::Some(x), Option::Some(y)) => lex_le(x, y),
    }
}

/// Any two group labels are ordered one way or the other.
pub proof fn lemma_group_le_total(a: Option<Seq<char>>, b: Option<Seq<char>>)
    ensures
        group_le(a, b) || group_le(b, a),
{
    if a is Some && b is Some {
        lemma_lex_le_total(a->0, b->0);
    }
}

/// The listing order is transitive.
pub proof fn lemma_group_le_trans(a: Option<Seq<char>>, b: Option<Seq<char>>, c: Option<Seq<char>>)
    requires
        group_le(a, b),
        group_le(b, c),
    ensures
        group_le(a, c),
{
    if a is Some && b is Some && c is Some {
        lemma_lex_le_trans(a->0, b->0, c->0);
    }
}

/// The group label of an options record, as a character sequence.
pub open spec fn group_view(o: KeyMapOptions) -> Option<Seq<char>> {
    match o.group {
        Some(g) => Some(g@),
        None => None,
    }
}

/// Executable form of [`lex_le`] on string slices.
pub fn str_lex_le(a: &str, b: &str) -> (r: bool)
    ensures
        r == lex_le(a@, b@),
{
    let na: usize = a.unicode_len();
    let nb: usize = b.unicode_len();
    proof {
        assert(a@.skip(0) =~= a@);
        assert(b@.skip(0) =~= b@);
    }
    let mut i: usize = 0;
    while i < na && i < nb
        invariant
            i <= na,
            i <= nb,
            na == a@.len(),
            nb == b@.len(),
            lex_le(a@, b@) == lex_le(a@.skip(i as int), b@.skip(i as int)),
        decreases na - i,
    {
        let ca: u32 = a.get_char(i) as u32;
        let cb: u32 = b.get_char(i) as u32;
        proof {
            assert(a@.skip(i as int)[0] == a@[i as int]);
            assert(b@.skip(i as int)[0] == b@[i as int]);
        }
        if ca < cb {
            return true;
        }
        if cb < ca {
            return false;
        }
        proof {
            assert(a@.skip(i as int).drop_first() =~= a@.skip(i as int + 1));
            assert(b@.skip(i as int).drop_first() =~= b@.skip(i as int + 1));
        }
        i = i + 1;
    }
    proof {
        if i == na {
            assert(a@.skip(i as int).len() == 0);
        } else {
            assert(b@.skip(i as int).len() == 0);
            assert(a@.skip(i as int).len() > 0);
        }
    }
    i == na
}

/// One row of the listing: the binding string and its display metadata.
pub type ListEntry = (String, KeyMapOptions);

/// The rows the gathered bindings yield, in registration order.
pub open spec fn entries_of(maps: Seq<KeyMap>) -> Seq<ListEntry> {
    maps.map_values(|m: KeyMap| (m.s, m.options))
}

/// Rows sorted by the listing order on their group labels.
pub open spec fn sorted_entries(s: Seq<ListEntry>) -> bool {
    forall|i: int, j: int|
        0 <= i < j < s.len() ==> group_le(group_view(s[i].1), group_view(s[j].1))
}

fn clone_string(s: &String) -> (r: String)
    ensures
        r == *s,
{
    s.clone()
}

fn clone_options(o: &KeyMapOptions) -> (r: KeyMapOptions)
    ensures
        r == *o,
{
    let group = match &o.group {
        Some(g) => Some(g.clone()),
        None => None,
    };
    let desc = match &o.desc {
        Some(d) => Some(d.clone()),
        None => None,
    };
    KeyMapOptions { group, desc }
}

/// Whether `a` comes no later than `b` in the listing.
fn entry_le(a: &ListEntry, b: &ListEntry) -> (r: bool)
    ensures
        r == group_le(group_view(a.1), group_view(b.1)),
{
    match (&a.1.group, &b.1.group) {
        (None, None) => true,
        (Some(_), None) => true,
        (None, Some(_)) => false,
        (Some(x), Some(y)) => str_lex_le(x.as_str(), y.as_str()),
    }
}

/// The listing rows of the gathered bindings, sorted by group label with
/// ungrouped entries last: a permutation of the rows in registration order.
#[verifier::rlimit(60)]
pub fn sorted_for_listing(maps: &KeyMaps) -> (out: Vec<ListEntry>)
    ensures
        out@.to_multiset() == entries_of(maps.0@).to_multiset(),
        sorted_entries(out@),
{
    let mut out: Vec<ListEntry> = Vec::new();
    proof {
        assert(maps.0@.subrange(0, 0) =~= Seq::<KeyMap>::empty());
        assert(entries_of(maps.0@.subrange(0, 0)) =~= Seq::<ListEntry>::empty());
        assert(out@.to_multiset() =~= entries_of(maps.0@.subrange(0, 0)).to_multiset());
    }
    let mut idx: usize = 0;
    while idx < maps.0.len()
        invariant
            idx <= maps.0@.len(),
            out@.to_multiset() == entries_of(maps.0@.subrange(0, idx as int)).to_multiset(),
            sorted_entries(out@),
        decreases maps.0@.len() - idx,
    {
        let m = &maps.0[idx];
        let entry: ListEntry = (clone_string(&m.s), clone_options(&m.options));
        let ghost e = entry;
        let mut pos: usize = 0;
        while pos < out.len() && entry_le(&out[pos], &entry)
            invariant
                pos <= out@.len(),
                forall|q: int|
                    0 <= q < pos ==> group_le(group_view(out@[q].1), group_view(e.1)),
                entry == e,
            decreases out@.len() - pos,
        {
            pos = pos + 1;
        }
        proof {
            if pos < out@.len() {
                lemma_group_le_total(group_view(out@[pos as int].1), group_view(e.1));
                assert(group_le(group_view(e.1), group_view(out@[pos as int].1)));
            }
        }
        let ghost old_out = out@;
        let ghost p = pos as int;
        out.insert(pos, entry);
        proof {
            assert(out@ == old_out.insert(p, e));
            old_out.insert_ensures(p, e);
            // The new row is a permutation of one more source row.
            let grown = maps.0@.subrange(0, idx as int + 1);
            assert(entries_of(grown) =~= entries_of(maps.0@.subrange(0, idx as int)).push(
                (maps.0@[idx as int].s, maps.0@[idx as int].options),
            ));
            assert(e == (maps.0@[idx as int].s, maps.0@[idx as int].options));
            assert(out@.to_multiset() == entries_of(grown).to_multiset());
            // The new row keeps the listing order.
            assert forall|i: int, j: int| 0 <= i < j < out@.len() implies group_le(
                group_view(out@[i].1),
                group_view(out@[j].1),
            ) by {
                if j < p {
                    assert(out@[i] == old_out[i] && out@[j] == old_out[j]);
                } else if i < p && j == p {
                    assert(out@[i] == old_out[i] && out@[j] == e);
                } else if i < p && j > p {
                    assert(out@[i] == old_out[i] && out@[j] == old_out[j - 1]);
                } else if i == p {
                    assert(out@[i] == e && out@[j] == old_out[j - 1]);
                    assert(group_le(group_view(e.1), group_view(old_out[p].1)));
                    if j - 1 > p {
                        lemma_group_le_trans(
                            group_view(e.1),
                            group_view(old_out[p].1),
                            group_view(old_out[j - 1].1),
                        );
                    }
                } else {
                    assert(out@[i] == old_out[i - 1] && out@[j] == old_out[j - 1]);
                }
            }
        }
        idx = idx + 1;
    }
    proof {
        assert(maps.0@.subrange(0, maps.0@.len() as int) =~= maps.0@);
    }
    out
}

} // verus!
