//! Per-identity secret derivation: the effective secret is the base secret
//! with the identity's bytes appended.

use vstd::prelude::*;

verus! {

/// The effective secret for an identity: `base || id`. An empty `id` leaves
/// the base secret unchanged.
pub fn effective_secret(base: &Vec<u8>, id: &Vec<u8>) -> (r: Vec<u8>)
    ensures
        r@ == base@ + id@,
{
    let mut r: Vec<u8> = Vec::new();
    let mut i: usize = 0;
    while i < base.len()
        invariant
            i <= base.len(),
            r@ == base@.subrange(0, i as int),
        decreases base.len() - i,
    {
        r.push(base[i]);
        i = i + 1;
        proof {
            assert(r@ =~= base@.subrange(0, i as int));
        }
    }
    let mut j: usize = 0;
    while j < id.len()
        invariant
            j <= id.len(),
            r@ == base@ + id@.subrange(0, j as int),
        decreases id.len() - j,
    {
        r.push(id[j]);
        j = j + 1;
        proof {
            assert(r@ =~= base@ + id@.subrange(0, j as int));
        }
    }
    proof {
        assert(r@ =~= base@ + id@);
    }
    r
}

/// An empty identity leaves the effective secret exactly the base secret.
pub proof fn lemma_empty_id_keeps_base(base: Seq<u8>)
    ensures
        base + Seq::<u8>::empty() == base,
{
    assert(base + Seq::<u8>::empty() =~= base);
}

/// Identity isolation: distinct identities yield distinct effective secrets
/// under the same base secret.
pub proof fn lemma_distinct_ids_distinct_secrets(base: Seq<u8>, id1: Seq<u8>, id2: Seq<u8>)
    requires
        id1 != id2,
    ensures
        base + id1 != base + id2,
{
    if base + id1 == base + id2 {
        assert((base + id1).len() == (base + id2).len());
        assert(id1.len() == id2.len());
        assert forall|i: int| 0 <= i < id1.len() implies id1[i] == id2[i] by {
            assert((base + id1)[base.len() + i] == id1[i]);
            assert((base + id2)[base.len() + i] == id2[i]);
        }
        assert(id1 =~= id2);
    }
}

} // verus!
