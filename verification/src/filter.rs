//! Filter policy: decides, per event, whether projection should happen at
//! all, before any serialization work is spent.

use vstd::prelude::*;

verus! {

/// The byte strings held by a list of byte vectors.
pub open spec fn byte_views(s: Seq<Vec<u8>>) -> Seq<Seq<u8>> {
    Seq::new(s.len(), |i: int| s[i]@)
}

/// Whether an account event is projected: the allow-list is empty (meaning
/// all accounts) or contains the account's identity. Comparison is on raw
/// fixed-width bytes, never on text.
pub open spec fn account_projected(identity: Seq<u8>, allow_list: Seq<Seq<u8>>) -> bool {
    allow_list.len() == 0 || allow_list.contains(identity)
}

/// Whether a transaction is projected: a vote transaction is dropped
/// exactly when vote suppression is on.
pub open spec fn transaction_projected(is_vote: bool, ignore_votes: bool) -> bool {
    !(is_vote && ignore_votes)
}

/// Byte-string equality.
fn bytes_eq(a: &Vec<u8>, b: &Vec<u8>) -> (r: bool)
    ensures
        r == (a@ == b@),
{
    if a.len() != b.len() {
        return false;
    }
    let n = a.len();
    let mut i: usize = 0;
    while i < n
        invariant
            i <= n,
            n == a@.len(),
            a@.len() == b@.len(),
            forall|k: int| 0 <= k < i ==> a@[k] == b@[k],
        decreases n - i,
    {
        if a[i] != b[i] {
            return false;
        }
        i = i + 1;
    }
    proof {
        assert(a@ =~= b@);
    }
    true
}

/// Account filter: true iff the allow-list is empty or holds the identity.
pub fn should_project_account(identity: &Vec<u8>, allow_list: &Vec<Vec<u8>>) -> (r: bool)
    ensures
        r == account_projected(identity@, byte_views(allow_list@)),
{
    let n = allow_list.len();
    if n == 0 {
        return true;
    }
    let mut i: usize = 0;
    while i < n
        invariant
            i <= n,
            n == allow_list@.len(),
            forall|k: int| 0 <= k < i ==> byte_views(allow_list@)[k] != identity@,
        decreases n - i,
    {
        if bytes_eq(&allow_list[i], identity) {
            proof {
                assert(byte_views(allow_list@)[i as int] == identity@);
                assert(byte_views(allow_list@).contains(identity@));
            }
            return true;
        }
        i = i + 1;
    }
    proof {
        assert(!byte_views(allow_list@).contains(identity@)) by {
            if byte_views(allow_list@).contains(identity@) {
                let k = choose|k: int|
                    0 <= k < byte_views(allow_list@).len() && byte_views(allow_list@)[k]
                        == identity@;
                assert(byte_views(allow_list@)[k] != identity@);
            }
        }
    }
    false
}

/// Transaction filter: false exactly for a vote transaction under vote
/// suppression.
pub fn should_project_transaction(is_vote: bool, ignore_vote_transactions: bool) -> (r: bool)
    ensures
        r == transaction_projected(is_vote, ignore_vote_transactions),
{
    !(is_vote && ignore_vote_transactions)
}

} // verus!
