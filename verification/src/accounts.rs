use vstd::prelude::*;

verus! {

/// A 32-byte account address, as the host's record store keys records.
/// The core never looks inside an address except to test it against the
/// all-zero sentinel that marks a record field not yet written.
#[derive(Clone, Copy)]
pub struct Address {
    pub bytes: [u8; 32],
}

/// An address is unset when every byte is zero: the value a freshly created
/// record carries before its write-once fields are first assigned.
pub open spec fn addr_unset(a: Address) -> bool {
    forall|i: int| 0 <= i < 32 ==> a.bytes@[i] == 0u8
}

/// Tests an address against the all-zero sentinel.
pub fn address_is_unset(a: &Address) -> (r: bool)
    ensures
        r == addr_unset(*a),
{
    let mut i: usize = 0;
    while i < 32
        invariant
            i <= 32,
            forall|j: int| 0 <= j < i ==> a.bytes@[j] == 0u8,
        decreases 32 - i,
    {
        if a.bytes[i] != 0 {
            assert(!addr_unset(*a));
            return false;
        }
        i += 1;
    }
    true
}

/// Model of a custodial token account: the one field of it this core reads or
/// writes is its balance. The host's token primitive owns the real account;
/// deposit and release state their effect on the balance through this model.
#[derive(Clone, Copy)]
pub struct TokenAccount {
    pub amount: u64,
}

/// The root record of one funding campaign. All four fields are written once,
/// at initialization, and never mutated afterwards by this core.
#[derive(Clone)]
pub struct BuidlAccount {
    pub owner: Address,
    pub db_id: String,
    pub vault_account: Address,
    pub token: Address,
}

/// A request to withdraw `amount` from a campaign's vault to a named
/// recipient, gated by its vote tally.
#[derive(Clone)]
pub struct ProposalAccount {
    pub buidl_account: Address,
    pub db_id: String,
    pub amount: u64,
    pub upvotes: u64,
    pub downvotes: u64,
    pub withdrawer_token_account: Address,
    pub end_timestamp: i64,
}

/// Per-(campaign, contributor) running balance. The identity, campaign
/// reference and first-contribution timestamp are written on the first
/// deposit only; the cumulative amount only ever grows.
#[derive(Clone, Copy)]
pub struct BackerAccount {
    pub address: Address,
    pub amount: u64,
    pub since_timestamp: i64,
    pub buidl_account: Address,
}

/// Per-(proposal, voter) vote state. `upvote` is meaningful only once `voted`
/// is set; together they let a voter switch direction with a two-sided tally
/// adjustment.
#[derive(Clone, Copy)]
pub struct BackerVoteAccount {
    pub address: Address,
    pub proposal_account: Address,
    pub upvote: bool,
    pub timestamp: i64,
    pub voted: bool,
}

/// One append-only campaign status post.
#[derive(Clone)]
pub struct UpdateAccount {
    pub buidl_account: Address,
    pub db_id: String,
    pub timestamp: i64,
    pub update_number: i64,
}

/// The structural tie between one voter's record and the proposal tally it
/// feeds: whichever bucket the stored direction points at holds at least that
/// voter's own contribution. A decrement of a bucket is only ever paired with
/// the removal of the decrementing voter's prior vote from that same bucket,
/// so this predicate is what keeps the counts from going negative.
pub open spec fn vote_record_counted(rec: BackerVoteAccount, prop: ProposalAccount) -> bool {
    &&& rec.voted && rec.upvote ==> prop.upvotes >= 1
    &&& rec.voted && !rec.upvote ==> prop.downvotes >= 1
}

} // verus!
