use vstd::prelude::*;

verus! {

/// `s` holds each index below `n` exactly once: it is an order in which a
/// list of `n` words can be visited, each word once.
pub open spec fn is_permutation_of(s: Seq<usize>, n: nat) -> bool {
    &&& s.len() == n
    &&& forall|i: int| 0 <= i < s.len() ==> #[trigger] s[i] < n
    &&& forall|v: usize| v < n ==> #[trigger] s.to_multiset().count(v) == 1
}

/// The unshuffled order 0, 1, ..., n-1.
pub open spec fn identity_seq(n: nat) -> Seq<usize> {
    Seq::new(n, |i: int| i as usize)
}

/// Each index below `n` occurs exactly once in the unshuffled order, and no
/// other value occurs at all.
proof fn lemma_identity_seq_counts(n: nat, v: usize)
    requires
        n <= usize::MAX,
    ensures
        identity_seq(n).to_multiset().count(v) == if v < n {
            1nat
        } else {
            0nat
        },
    decreases n,
{
    broadcast use vstd::seq_lib::group_to_multiset_ensures;
    broadcast use vstd::multiset::group_multiset_properties;

    if n == 0 {
        assert(!identity_seq(0).contains(v));
    } else {
        lemma_identity_seq_counts((n - 1) as nat, v);
        assert(identity_seq(n) =~= identity_seq((n - 1) as nat).push((n - 1) as usize));
    }
}

/// Relies on rand's `SliceRandom::shuffle`: it rearranges the slice in
/// place, so the new contents are exactly the old ones in some order. Which
/// order comes out is random; nothing relates two calls.
#[verifier::external_body]
fn shuffle_in_place(v: &mut Vec<usize>)
    ensures
        final(v)@.len() == old(v)@.len(),
        final(v)@.to_multiset() == old(v)@.to_multiset(),
{
    let mut rng = rand::rng();
    rand::seq::SliceRandom::shuffle(v.as_mut_slice(), &mut rng);
}

/// The order 0, 1, ..., n-1 as a vector.
fn identity_order(n: usize) -> (r: Vec<usize>)
    ensures
        r@ == identity_seq(n as nat),
{
    let mut r: Vec<usize> = Vec::new();
    let mut i: usize = 0;
    while i < n
        invariant
            i <= n,
            r@ == identity_seq(i as nat),
        decreases n - i,
    {
        r.push(i);
        i = i + 1;
        proof {
            assert(r@ =~= identity_seq(i as nat));
        }
    }
    r
}

/// Draw a random visiting order over `n` words: a permutation of 0..n.
/// The draw is random, so two calls need not agree.
pub fn shuffled_order(n: usize) -> (r: Vec<usize>)
    requires
        n >= 1,
    ensures
        is_permutation_of(r@, n as nat),
{
    let mut v = identity_order(n);
    shuffle_in_place(&mut v);
    proof {
        broadcast use vstd::seq_lib::group_to_multiset_ensures;

        assert forall|w: usize| w < n implies #[trigger] v@.to_multiset().count(w) == 1 by {
            lemma_identity_seq_counts(n as nat, w);
        }
        assert forall|i: int| 0 <= i < v@.len() implies #[trigger] v@[i] < n by {
            lemma_identity_seq_counts(n as nat, v@[i]);
            assert(v@.contains(v@[i]));
        }
    }
    v
}

} // verus!
