use vstd::prelude::*;

use crate::accounts::{
    addr_unset, address_is_unset, vote_record_counted, Address, BackerAccount, BackerVoteAccount,
    BuidlAccount, ProposalAccount, TokenAccount, UpdateAccount,
};
use crate::authority::{derive_vault_authority, vault_authority_of};
use crate::errors::ErrorCode;

verus! {

/// Longest reference id a record can carry: the fixed record layout reserves
/// twenty-four four-byte character slots for it.
pub open spec fn db_id_fits(s: Seq<char>) -> bool {
    s.len() <= 24
}

/// Creates the root record of a campaign. The owner, reference id, vault
/// reference and token reference are written here once and this core never
/// mutates them afterwards. Custody of the vault itself is delegated by the
/// host at the same step, to the authority `check_proposal` later derives
/// from the campaign and token keys alone.
pub fn initialize_buidl(
    owner: Address,
    db_id: String,
    vault: Address,
    mint: Address,
) -> (r: BuidlAccount)
    requires
        db_id_fits(db_id@),
    ensures
        r.owner == owner,
        r.db_id@ == db_id@,
        r.vault_account == vault,
        r.token == mint,
{
    BuidlAccount { owner, db_id, vault_account: vault, token: mint }
}

/// The effect of one deposit on a contributor's cumulative amount: rejected
/// below one unit, rejected whole when the running total would leave `u64`,
/// and otherwise the exact sum.
pub open spec fn deposit_step(cur: u64, amount: u64) -> Result<u64, ErrorCode> {
    if amount < 1 {
        Err(ErrorCode::AmountTooLow)
    } else if cur + amount > u64::MAX {
        Err(ErrorCode::Overflow)
    } else {
        Ok((cur + amount) as u64)
    }
}

/// Credits the vault by `amount` and accumulates `amount` into the
/// depositor's ledger entry, as one atomic unit: on any error both records
/// are left exactly as they were. On the contributor's first deposit the
/// entry's identity, campaign reference and first-contribution timestamp are
/// written; each of those three fields is write-once, guarded by its unset
/// sentinel.
pub fn deposit(
    backer_account: &mut BackerAccount,
    vault: &mut TokenAccount,
    depositor: Address,
    buidl_key: Address,
    now: i64,
    amount: u64,
) -> (r: Result<(), ErrorCode>)
    requires
        1 <= amount && old(backer_account).amount + amount <= u64::MAX
            ==> old(vault).amount + amount <= u64::MAX,
    ensures
        r is Ok <==> 1 <= amount && old(backer_account).amount + amount <= u64::MAX,
        (match r {
            Ok(_) => deposit_step(old(backer_account).amount, amount) == Ok::<u64, ErrorCode>(
                final(backer_account).amount,
            ),
            Err(e) => deposit_step(old(backer_account).amount, amount) == Err::<u64, ErrorCode>(e),
        }),
        r is Err ==> *final(backer_account) == *old(backer_account)
            && *final(vault) == *old(vault),
        r is Ok ==> {
            &&& final(backer_account).amount == old(backer_account).amount + amount
            &&& final(vault).amount == old(vault).amount + amount
            &&& final(backer_account).address == (if addr_unset(old(backer_account).address) {
                depositor
            } else {
                old(backer_account).address
            })
            &&& final(backer_account).buidl_account == (if addr_unset(
                old(backer_account).buidl_account,
            ) {
                buidl_key
            } else {
                old(backer_account).buidl_account
            })
            &&& final(backer_account).since_timestamp == (if old(backer_account).since_timestamp
                == 0 {
                now
            } else {
                old(backer_account).since_timestamp
            })
        },
{
    if amount < 1 {
        return Err(ErrorCode::AmountTooLow);
    }
    match backer_account.amount.checked_add(amount) {
        Some(new_amount) => {
            if address_is_unset(&backer_account.address) {
                backer_account.address = depositor;
            }
            if address_is_unset(&backer_account.buidl_account) {
                backer_account.buidl_account = buidl_key;
            }
            if backer_account.since_timestamp == 0 {
                backer_account.since_timestamp = now;
            }
            backer_account.amount = new_amount;
            vault.amount = vault.amount + amount;
            Ok(())
        },
        None => Err(ErrorCode::Overflow),
    }
}

/// Opens a proposal to withdraw `amount` from the campaign's vault to the
/// named recipient. The request is bounded by the vault balance at call time
/// and by the three-day minimum duration; on either error no record is
/// created. The tally starts empty and the expiry is `now` plus the duration
/// in seconds.
pub fn create_proposal(
    vault: &TokenAccount,
    buidl_key: Address,
    amount: u64,
    db_id: String,
    withdrawer_token_account: Address,
    end_after_days: i64,
    now: i64,
) -> (r: Result<ProposalAccount, ErrorCode>)
    requires
        db_id_fits(db_id@),
        amount <= vault.amount && end_after_days >= 3 ==> end_after_days * 86400 <= i64::MAX && now
            + end_after_days * 86400 <= i64::MAX,
    ensures
        r is Ok <==> amount <= vault.amount && end_after_days >= 3,
        r matches Err(e) ==> (e == ErrorCode::InsufficientFunds <==> amount > vault.amount) && (e
            == ErrorCode::ProposalTooShort <==> amount <= vault.amount),
        r matches Ok(p) ==> {
            &&& p.buidl_account == buidl_key
            &&& p.db_id@ == db_id@
            &&& p.amount == amount
            &&& p.upvotes == 0
            &&& p.downvotes == 0
            &&& p.withdrawer_token_account == withdrawer_token_account
            &&& p.end_timestamp == now + end_after_days * 86400
        },
{
    if amount > vault.amount {
        return Err(ErrorCode::InsufficientFunds);
    }
    if end_after_days < 3 {
        return Err(ErrorCode::ProposalTooShort);
    }
    let end_timestamp: i64 = now + end_after_days * 86400;
    Ok(
        ProposalAccount {
            buidl_account: buidl_key,
            db_id: db_id,
            amount: amount,
            upvotes: 0,
            downvotes: 0,
            withdrawer_token_account: withdrawer_token_account,
            end_timestamp: end_timestamp,
        },
    )
}

/// Everything of a proposal but its tally is left as it was.
pub open spec fn same_but_tally(p: ProposalAccount, q: ProposalAccount) -> bool {
    &&& q.buidl_account == p.buidl_account
    &&& q.db_id == p.db_id
    &&& q.amount == p.amount
    &&& q.withdrawer_token_account == p.withdrawer_token_account
    &&& q.end_timestamp == p.end_timestamp
}

/// Casts or switches one voter's vote on a proposal, adjusting the voter's
/// own record and the proposal's tally as one atomic unit. A first vote adds
/// one to the chosen bucket. Re-casting the stored direction fails with
/// `AlreadyVoted` and changes nothing. Switching direction moves the voter's
/// single contribution: the bucket the stored direction points at goes down
/// by one and the other goes up by one, so the margin moves by exactly two
/// and a bucket is only ever decremented while it still holds that voter's
/// prior vote.
pub fn vote(
    proposal_account: &mut ProposalAccount,
    voter_account: &mut BackerVoteAccount,
    voter: Address,
    proposal_key: Address,
    now: i64,
    upvote: bool,
) -> (r: Result<(), ErrorCode>)
    requires
        vote_record_counted(*old(voter_account), *old(proposal_account)),
        old(proposal_account).upvotes < u64::MAX,
        old(proposal_account).downvotes < u64::MAX,
    ensures
        r is Ok <==> !(old(voter_account).voted && old(voter_account).upvote == upvote),
        r is Err ==> r == Err::<(), ErrorCode>(ErrorCode::AlreadyVoted) && *final(voter_account)
            == *old(voter_account) && *final(proposal_account) == *old(proposal_account),
        r is Ok ==> same_but_tally(*old(proposal_account), *final(proposal_account)),
        r is Ok ==> final(voter_account).voted && final(voter_account).upvote == upvote
            && final(voter_account).timestamp == now,
        r is Ok && !old(voter_account).voted ==> {
            &&& final(voter_account).address == voter
            &&& final(voter_account).proposal_account == proposal_key
            &&& final(proposal_account).upvotes == old(proposal_account).upvotes + (if upvote {
                1int
            } else {
                0int
            })
            &&& final(proposal_account).downvotes == old(proposal_account).downvotes + (if upvote {
                0int
            } else {
                1int
            })
        },
        r is Ok && old(voter_account).voted ==> {
            &&& final(voter_account).address == old(voter_account).address
            &&& final(voter_account).proposal_account == old(voter_account).proposal_account
            &&& final(proposal_account).upvotes == old(proposal_account).upvotes + (if upvote {
                1int
            } else {
                -1int
            })
            &&& final(proposal_account).downvotes == old(proposal_account).downvotes + (if upvote {
                -1int
            } else {
                1int
            })
            &&& final(proposal_account).upvotes - final(proposal_account).downvotes
                == old(proposal_account).upvotes - old(proposal_account).downvotes + (if upvote {
                2int
            } else {
                -2int
            })
        },
        vote_record_counted(*final(voter_account), *final(proposal_account)),
{
    if !voter_account.voted {
        voter_account.proposal_account = proposal_key;
        voter_account.timestamp = now;
        voter_account.address = voter;
        if upvote {
            voter_account.upvote = true;
            proposal_account.upvotes = proposal_account.upvotes + 1;
        } else {
            voter_account.upvote = false;
            proposal_account.downvotes = proposal_account.downvotes + 1;
        }
        voter_account.voted = true;
        Ok(())
    } else {
        if upvote {
            if voter_account.upvote {
                return Err(ErrorCode::AlreadyVoted);
            }
            voter_account.timestamp = now;
            proposal_account.downvotes = proposal_account.downvotes - 1;
            voter_account.upvote = true;
            proposal_account.upvotes = proposal_account.upvotes + 1;
        } else {
            if !voter_account.upvote {
                return Err(ErrorCode::AlreadyVoted);
            }
            voter_account.timestamp = now;
            proposal_account.upvotes = proposal_account.upvotes - 1;
            voter_account.upvote = false;
            proposal_account.downvotes = proposal_account.downvotes + 1;
        }
        voter_account.voted = true;
        Ok(())
    }
}

/// Releases an approved proposal's funds: succeeds exactly when the tally
/// holds a strict majority of upvotes, a tie failing with `ProposalNotPassed`
/// and moving nothing. On success exactly the proposed amount moves from the
/// vault to the proposal's recipient, authorized by the authority derived
/// from the campaign and token keys alone — never by the owner's or any
/// voter's identity. The canonical release applies no time lock: the expiry
/// field is not consulted.
pub fn check_proposal(
    proposal_account: &ProposalAccount,
    vault: &mut TokenAccount,
    withdrawer_token_account: &mut TokenAccount,
    buidl_key: &Address,
    mint: &Address,
    program_id: &Address,
) -> (r: Result<Address, ErrorCode>)
    requires
        proposal_account.upvotes > proposal_account.downvotes ==> old(vault).amount
            >= proposal_account.amount && old(withdrawer_token_account).amount
            + proposal_account.amount <= u64::MAX,
    ensures
        r is Ok <==> proposal_account.upvotes > proposal_account.downvotes,
        r is Err ==> r == Err::<Address, ErrorCode>(ErrorCode::ProposalNotPassed) && *final(vault)
            == *old(vault) && *final(withdrawer_token_account) == *old(withdrawer_token_account),
        r matches Ok(authority) ==> {
            &&& final(vault).amount == old(vault).amount - proposal_account.amount
            &&& final(withdrawer_token_account).amount == old(withdrawer_token_account).amount
                + proposal_account.amount
            &&& authority.bytes@ == vault_authority_of(
                buidl_key.bytes@,
                mint.bytes@,
                program_id.bytes@,
            )
        },
{
    if proposal_account.upvotes <= proposal_account.downvotes {
        return Err(ErrorCode::ProposalNotPassed);
    }
    let authority = derive_vault_authority(buidl_key, mint, program_id);
    vault.amount = vault.amount - proposal_account.amount;
    withdrawer_token_account.amount = withdrawer_token_account.amount + proposal_account.amount;
    Ok(authority)
}

/// Appends one status post for a campaign, stamped with the current time.
/// Purely additive: no state outside the returned record is touched.
pub fn post_update(
    buidl_key: Address,
    db_id: String,
    update_number: i64,
    now: i64,
) -> (r: UpdateAccount)
    requires
        db_id_fits(db_id@),
    ensures
        r.buidl_account == buidl_key,
        r.db_id@ == db_id@,
        r.timestamp == now,
        r.update_number == update_number,
{
    UpdateAccount { buidl_account: buidl_key, db_id, timestamp: now, update_number }
}

} // verus!
