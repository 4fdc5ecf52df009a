use vstd::prelude::*;
use crate::types::{Kitty, KittyId};

verus! {

/// The table that a sequence of (identifier, kitty) entries describes; a
/// later entry for an identifier shadows an earlier one.
pub open spec fn table_map(s: Seq<(KittyId, Kitty)>) -> Map<KittyId, Kitty>
    decreases s.len(),
{
    if s.len() == 0 {
        Map::empty()
    } else {
        table_map(s.drop_last()).insert(s.last().0, s.last().1)
    }
}

/// Appending an entry adds its identifier and kitty to the table.
pub proof fn lemma_table_push(s: Seq<(KittyId, Kitty)>, e: (KittyId, Kitty))
    ensures
        table_map(s.push(e)) == table_map(s).insert(e.0, e.1),
{
    assert(s.push(e).drop_last() =~= s);
}

/// An identifier that no entry at or after `i` holds is in the table just
/// as it is in the table of the first `i` entries.
pub proof fn lemma_table_prefix(s: Seq<(KittyId, Kitty)>, i: int, id: KittyId)
    requires
        0 <= i <= s.len(),
        forall|j: int| i <= j < s.len() ==> (#[trigger] s[j]).0 != id,
    ensures
        table_map(s).contains_key(id) == table_map(s.take(i)).contains_key(id),
        table_map(s).contains_key(id) ==> table_map(s)[id] == table_map(s.take(i))[id],
    decreases s.len(),
{
    if s.len() > i {
        let t = s.drop_last();
        assert(s.take(i) =~= t.take(i));
        assert(t.len() == s.len() - 1);
        assert forall|j: int| i <= j < t.len() implies (#[trigger] t[j]).0 != id by {
            assert(t[j] == s[j]);
        }
        lemma_table_prefix(t, i, id);
        assert(s.last() == s[s.len() - 1]);
    } else {
        assert(s.take(i) =~= s);
    }
}

/// Byte-wise equality of two identifiers.
pub fn ids_equal(a: &KittyId, b: &KittyId) -> (r: bool)
    ensures
        r == (*a == *b),
{
    let mut i: usize = 0;
    while i < 32
        invariant
            i <= 32,
            forall|j: int| 0 <= j < i ==> a[j] == b[j],
        decreases 32 - i,
    {
        if a[i] != b[i] {
            return false;
        }
        i = i + 1;
    }
    assert(*a =~= *b);
    true
}

/// Finds the kitty that the entries give for `id`.
pub fn find_kitty(s: &Vec<(KittyId, Kitty)>, id: &KittyId) -> (r: Option<Kitty>)
    ensures
        r == if table_map(s@).contains_key(*id) {
            Some(table_map(s@)[*id])
        } else {
            None::<Kitty>
        },
{
    let mut i: usize = s.len();
    while i > 0
        invariant
            i <= s@.len(),
            forall|j: int| i <= j < s@.len() ==> (#[trigger] s@[j]).0 != *id,
        decreases i,
    {
        i = i - 1;
        if ids_equal(&s[i].0, id) {
            proof {
                let t = s@.take(i + 1);
                lemma_table_prefix(s@, i + 1, *id);
                assert(t.drop_last() =~= s@.take(i as int));
                assert(t.last() == s@[i as int]);
            }
            return Some(s[i].1);
        }
    }
    proof {
        lemma_table_prefix(s@, 0, *id);
        assert(s@.take(0) =~= Seq::<(KittyId, Kitty)>::empty());
    }
    None
}

} // verus!
