use vstd::prelude::*;

use crate::accounts::{vote_record_counted, BackerVoteAccount, ProposalAccount};
use crate::errors::ErrorCode;
use crate::ops::deposit_step;

verus! {

/// The grand total of a sequence of deposit amounts, as an unbounded integer.
pub open spec fn sum_amounts(s: Seq<u64>) -> int
    decreases s.len(),
{
    if s.len() == 0 {
        0
    } else {
        sum_amounts(s.drop_last()) + s.last()
    }
}

/// The cumulative ledger amount after the deposits in `s` are applied in
/// order to a balance of `cur`: a deposit that fails leaves the balance as it
/// was, exactly as `deposit` leaves the ledger entry untouched on an error.
pub open spec fn run_deposits(cur: u64, s: Seq<u64>) -> u64
    decreases s.len(),
{
    if s.len() == 0 {
        cur
    } else {
        let prev = run_deposits(cur, s.drop_last());
        match deposit_step(prev, s.last()) {
            Ok(n) => n,
            Err(_) => prev,
        }
    }
}

/// Whether every deposit in `s`, applied in order to a balance of `cur`,
/// succeeds.
pub open spec fn all_deposits_ok(cur: u64, s: Seq<u64>) -> bool
    decreases s.len(),
{
    if s.len() == 0 {
        true
    } else {
        all_deposits_ok(cur, s.drop_last()) && deposit_step(
            run_deposits(cur, s.drop_last()),
            s.last(),
        ) is Ok
    }
}

/// A sum of unsigned amounts is never negative.
pub proof fn lemma_sum_nonneg(s: Seq<u64>)
    ensures
        sum_amounts(s) >= 0,
    decreases s.len(),
{
    if s.len() > 0 {
        lemma_sum_nonneg(s.drop_last());
    }
}

/// Law: over any sequence of positive deposits by one contributor, every
/// deposit succeeds exactly when the grand total stays representable, and
/// then the ledger entry's cumulative amount is precisely the sum of the
/// deposited amounts. A failing step in such a sequence is always the
/// overflow rejection, and it leaves the running balance as it was.
pub proof fn lemma_deposits_accumulate(cur: u64, s: Seq<u64>)
    requires
        forall|i: int| 0 <= i < s.len() ==> s[i] >= 1,
    ensures
        all_deposits_ok(cur, s) <==> cur + sum_amounts(s) <= u64::MAX,
        all_deposits_ok(cur, s) ==> run_deposits(cur, s) == cur + sum_amounts(s),
    decreases s.len(),
{
    if s.len() > 0 {
        let prefix = s.drop_last();
        assert(forall|i: int| 0 <= i < prefix.len() ==> prefix[i] == s[i]);
        lemma_deposits_accumulate(cur, prefix);
        lemma_sum_nonneg(prefix);
        if cur + sum_amounts(s) <= u64::MAX {
            assert(cur + sum_amounts(prefix) <= u64::MAX);
            assert(run_deposits(cur, prefix) == cur + sum_amounts(prefix));
            assert(deposit_step(run_deposits(cur, prefix), s.last()) is Ok);
        } else {
            if all_deposits_ok(cur, s) {
                assert(run_deposits(cur, prefix) == cur + sum_amounts(prefix));
                assert(deposit_step(run_deposits(cur, prefix), s.last()) is Ok);
                assert(cur + sum_amounts(s) <= u64::MAX);
            }
        }
    }
}

/// One record's contribution to the upvote bucket.
pub open spec fn up_contrib(r: BackerVoteAccount) -> int {
    if r.voted && r.upvote {
        1
    } else {
        0
    }
}

/// One record's contribution to the downvote bucket.
pub open spec fn down_contrib(r: BackerVoteAccount) -> int {
    if r.voted && !r.upvote {
        1
    } else {
        0
    }
}

/// The upvotes that a proposal's vote records hold between them.
pub open spec fn upvotes_in(recs: Seq<BackerVoteAccount>) -> int
    decreases recs.len(),
{
    if recs.len() == 0 {
        0
    } else {
        upvotes_in(recs.drop_last()) + up_contrib(recs.last())
    }
}

/// The downvotes that a proposal's vote records hold between them.
pub open spec fn downvotes_in(recs: Seq<BackerVoteAccount>) -> int
    decreases recs.len(),
{
    if recs.len() == 0 {
        0
    } else {
        downvotes_in(recs.drop_last()) + down_contrib(recs.last())
    }
}

/// The aggregate tally invariant: each bucket of the proposal's tally counts
/// exactly the records whose stored direction feeds it, one vote per record.
pub open spec fn tally_matches(prop: ProposalAccount, recs: Seq<BackerVoteAccount>) -> bool {
    &&& prop.upvotes == upvotes_in(recs)
    &&& prop.downvotes == downvotes_in(recs)
}

/// Replacing one record moves each bucket by exactly the difference between
/// the new record's contribution and the old one's.
pub proof fn lemma_count_update(recs: Seq<BackerVoteAccount>, i: int, r: BackerVoteAccount)
    requires
        0 <= i < recs.len(),
    ensures
        upvotes_in(recs.update(i, r)) == upvotes_in(recs) - up_contrib(recs[i]) + up_contrib(r),
        downvotes_in(recs.update(i, r)) == downvotes_in(recs) - down_contrib(recs[i])
            + down_contrib(r),
    decreases recs.len(),
{
    if i == recs.len() - 1 {
        assert(recs.update(i, r).drop_last() =~= recs.drop_last());
    } else {
        lemma_count_update(recs.drop_last(), i, r);
        assert(recs.drop_last()[i] == recs[i]);
        assert(recs.update(i, r).drop_last() =~= recs.drop_last().update(i, r));
        assert(recs.update(i, r).last() == recs.last());
    }
}

/// Law: under the aggregate tally invariant, every single vote record is
/// still counted in its bucket — the precondition `vote` asks of the host
/// holds of each record on its own.
pub proof fn lemma_tally_counts_each_record(
    prop: ProposalAccount,
    recs: Seq<BackerVoteAccount>,
    i: int,
)
    requires
        tally_matches(prop, recs),
        0 <= i < recs.len(),
    ensures
        vote_record_counted(recs[i], prop),
{
    let blanked = BackerVoteAccount {
        address: recs[i].address,
        proposal_account: recs[i].proposal_account,
        upvote: recs[i].upvote,
        timestamp: recs[i].timestamp,
        voted: false,
    };
    lemma_count_update(recs, i, blanked);
    lemma_counts_nonneg(recs.update(i, blanked));
}

/// No bucket's count over a record set is ever negative.
pub proof fn lemma_counts_nonneg(recs: Seq<BackerVoteAccount>)
    ensures
        upvotes_in(recs) >= 0,
        downvotes_in(recs) >= 0,
    decreases recs.len(),
{
    if recs.len() > 0 {
        lemma_counts_nonneg(recs.drop_last());
    }
}

/// Law: a successful vote by the holder of record `i` keeps the aggregate
/// tally invariant. The hypotheses on the new tally and record are exactly
/// what `vote` ensures of a first vote and of a switched vote, so a host that
/// stores one record per (proposal, voter) keeps each bucket equal to the
/// votes actually standing in it — a decrement only ever removes the voter's
/// own prior vote, and no bucket can go negative.
pub proof fn lemma_vote_preserves_tally(
    prop: ProposalAccount,
    recs: Seq<BackerVoteAccount>,
    i: int,
    upvote: bool,
    new_prop: ProposalAccount,
    new_rec: BackerVoteAccount,
)
    requires
        tally_matches(prop, recs),
        0 <= i < recs.len(),
        new_rec.voted && new_rec.upvote == upvote,
        !(recs[i].voted && recs[i].upvote == upvote),
        !recs[i].voted ==> new_prop.upvotes == prop.upvotes + (if upvote {
            1int
        } else {
            0int
        }) && new_prop.downvotes == prop.downvotes + (if upvote {
            0int
        } else {
            1int
        }),
        recs[i].voted ==> new_prop.upvotes == prop.upvotes + (if upvote {
            1int
        } else {
            -1int
        }) && new_prop.downvotes == prop.downvotes + (if upvote {
            -1int
        } else {
            1int
        }),
    ensures
        tally_matches(new_prop, recs.update(i, new_rec)),
{
    lemma_count_update(recs, i, new_rec);
}

/// Law: a positive deposit fails exactly when the running balance would pass
/// the largest representable amount, and then with the overflow error and no
/// other; `deposit` in turn leaves both records untouched on that error.
pub proof fn lemma_deposit_overflow_exact(cur: u64, amount: u64)
    requires
        amount >= 1,
    ensures
        deposit_step(cur, amount) == Err::<u64, ErrorCode>(ErrorCode::Overflow) <==> cur + amount
            > u64::MAX,
{
}

} // verus!
