//! Staking several positions in one operation.

use crate::errors::CustomError;
use crate::identity::Pubkey;
use crate::records::{
    locked_record, valid_option_type, PositionRecord, StakingPool, UserAccount, UserAccountView,
};
use crate::rewards::{pool_with_total, update_reward_rate};
use vstd::prelude::*;
use vstd::seq_lib::lemma_no_dup_in_concat;

verus! {

/// The records that a batch stake works on. Entry `i` of `remaining_accounts`
/// is the record fetched for the `i`-th position of the batch.
#[derive(Debug)]
pub struct StakeOptionsInPool {
    pub user_account: UserAccount,
    pub staking_pool: StakingPool,
    pub remaining_accounts: Vec<PositionRecord>,
}

/// True when an entry before `i` names the same position as entry `i`.
pub open spec fn named_before(ids: Seq<Pubkey>, i: int) -> bool {
    exists|j: int| 0 <= j < i && ids[j] == ids[i]
}

/// What is wrong with entry `i` of a batch, if anything. The record must be
/// there and carry the identifier that was named; the position must not be
/// locked, neither in its record nor by an earlier entry of the same batch;
/// and the option type must be a call or a put. The first of these that
/// fails decides.
pub open spec fn entry_fault(
    records: Seq<PositionRecord>,
    ids: Seq<Pubkey>,
    option_types: Seq<u8>,
    i: int,
) -> Option<CustomError> {
    if i >= records.len() || records[i].key != ids[i] {
        Some(CustomError::InvalidOptionAccount)
    } else if records[i].contract.locked || named_before(ids, i) {
        Some(CustomError::OptionAlreadyLocked)
    } else if !valid_option_type(option_types[i]) {
        Some(CustomError::InvalidOptionType)
    } else {
        None
    }
}

/// The fault of the first faulty entry among the first `n`, if there is one.
pub open spec fn first_fault(
    records: Seq<PositionRecord>,
    ids: Seq<Pubkey>,
    option_types: Seq<u8>,
    n: int,
) -> Option<CustomError>
    decreases n,
{
    if n <= 0 {
        None
    } else if first_fault(records, ids, option_types, n - 1) is Some {
        first_fault(records, ids, option_types, n - 1)
    } else {
        entry_fault(records, ids, option_types, n - 1)
    }
}

/// The records with the first `n` positions locked and the others as they were.
pub open spec fn records_with_locked(records: Seq<PositionRecord>, n: int) -> Seq<PositionRecord> {
    Seq::new(
        records.len(),
        |i: int|
            if i < n {
                locked_record(records[i])
            } else {
                records[i]
            },
    )
}

/// The account with a batch appended to its three parallel sequences.
pub open spec fn account_with_batch(
    account: UserAccountView,
    ids: Seq<Pubkey>,
    lock_periods: Seq<u64>,
    option_types: Seq<u8>,
) -> UserAccountView {
    UserAccountView {
        staked_options: account.staked_options + ids,
        lock_periods: account.lock_periods + lock_periods,
        option_types: account.option_types + option_types,
        ..account
    }
}

impl StakeOptionsInPool {
    /// The error with which a batch stake of the given inputs is rejected, or
    /// `None` where it goes through. Inputs of unequal length are refused
    /// first, then the first faulty entry decides, and last the pool's count
    /// must have room for the batch.
    pub open spec fn batch_error(
        self,
        ids: Seq<Pubkey>,
        lock_periods: Seq<u64>,
        option_types: Seq<u8>,
    ) -> Option<CustomError> {
        if ids.len() != lock_periods.len() || ids.len() != option_types.len() {
            Some(CustomError::InvalidInput)
        } else if first_fault(self.remaining_accounts@, ids, option_types, ids.len() as int) is Some {
            first_fault(self.remaining_accounts@, ids, option_types, ids.len() as int)
        } else if self.staking_pool.total_staked + ids.len() > u64::MAX {
            Some(CustomError::ArithmeticError)
        } else {
            None
        }
    }
}

/// The first fault is the fault of the least faulty entry: every entry
/// before it is sound. Where there is none, every entry is sound.
pub proof fn lemma_first_fault_is_least(
    records: Seq<PositionRecord>,
    ids: Seq<Pubkey>,
    option_types: Seq<u8>,
    n: int,
)
    ensures
        first_fault(records, ids, option_types, n) is None <==> forall|i: int|
            0 <= i < n ==> entry_fault(records, ids, option_types, i) is None,
        first_fault(records, ids, option_types, n) is Some ==> exists|k: int|
            0 <= k < n && entry_fault(records, ids, option_types, k) == first_fault(
                records,
                ids,
                option_types,
                n,
            ) && forall|i: int| 0 <= i < k ==> entry_fault(records, ids, option_types, i) is None,
    decreases n,
{
    if n > 0 {
        lemma_first_fault_is_least(records, ids, option_types, n - 1);
        if first_fault(records, ids, option_types, n - 1) is None {
            if entry_fault(records, ids, option_types, n - 1) is Some {
                let k = n - 1;
                assert(0 <= k < n && entry_fault(records, ids, option_types, k) == first_fault(
                    records,
                    ids,
                    option_types,
                    n,
                ) && forall|i: int| 0 <= i < k ==> entry_fault(records, ids, option_types, i) is None);
            }
        }
    }
}

/// A fault among the first `m` entries is the first fault of every longer
/// prefix of the batch.
proof fn lemma_first_fault_extends(
    records: Seq<PositionRecord>,
    ids: Seq<Pubkey>,
    option_types: Seq<u8>,
    m: int,
    n: int,
)
    requires
        0 <= m <= n,
        first_fault(records, ids, option_types, m) is Some,
    ensures
        first_fault(records, ids, option_types, n) == first_fault(records, ids, option_types, m),
    decreases n,
{
    if n > m {
        lemma_first_fault_extends(records, ids, option_types, m, n - 1);
    }
}

/// The first fault among the first `m` entries depends only on the records
/// of those entries.
proof fn lemma_first_fault_of_prefix(
    read: Seq<PositionRecord>,
    all: Seq<PositionRecord>,
    ids: Seq<Pubkey>,
    option_types: Seq<u8>,
    m: int,
)
    requires
        read.len() <= all.len(),
        forall|i: int| 0 <= i < read.len() ==> read[i] == all[i],
        0 <= m <= read.len(),
    ensures
        first_fault(read, ids, option_types, m) == first_fault(all, ids, option_types, m),
    decreases m,
{
    if m > 0 {
        lemma_first_fault_of_prefix(read, all, ids, option_types, m - 1);
        assert(read[m - 1] == all[m - 1]);
    }
}

/// A fault found while the records are gathered decides the batch: whatever
/// records are read after those in `read`, staking the first `n` entries
/// meets the same first fault.
pub proof fn lemma_gathered_fault_decides(
    read: Seq<PositionRecord>,
    all: Seq<PositionRecord>,
    ids: Seq<Pubkey>,
    option_types: Seq<u8>,
    m: int,
    n: int,
)
    requires
        read.len() <= all.len(),
        forall|i: int| 0 <= i < read.len() ==> read[i] == all[i],
        0 <= m <= read.len(),
        m <= n,
        first_fault(read, ids, option_types, m) is Some,
    ensures
        first_fault(all, ids, option_types, n) == first_fault(read, ids, option_types, m),
{
    lemma_first_fault_of_prefix(read, all, ids, option_types, m);
    lemma_first_fault_extends(all, ids, option_types, m, n);
}

/// Whether an entry before `i` names the same position as entry `i`.
fn is_named_before(ids: &Vec<Pubkey>, i: usize) -> (found: bool)
    requires
        i < ids.len(),
    ensures
        found == named_before(ids@, i as int),
{
    let mut j: usize = 0;
    while j < i
        invariant
            j <= i < ids.len(),
            forall|k: int| 0 <= k < j ==> ids@[k] != ids@[i as int],
        decreases i - j,
    {
        if ids[j] == ids[i] {
            return true;
        }
        j += 1;
    }
    false
}

/// Looks for the first faulty entry among the first `limit` of a batch whose
/// inputs have equal length.
fn find_first_fault(
    records: &Vec<PositionRecord>,
    ids: &Vec<Pubkey>,
    option_types: &Vec<u8>,
    limit: usize,
) -> (fault: Option<CustomError>)
    requires
        limit <= ids.len() == option_types.len(),
    ensures
        fault == first_fault(records@, ids@, option_types@, limit as int),
{
    let mut i: usize = 0;
    while i < limit
        invariant
            i <= limit <= ids.len(),
            ids.len() == option_types.len(),
            first_fault(records@, ids@, option_types@, i as int) is None,
        decreases limit - i,
    {
        let fault: Option<CustomError> = if i >= records.len() || records[i].key != ids[i] {
            Some(CustomError::InvalidOptionAccount)
        } else if records[i].contract.locked || is_named_before(ids, i) {
            Some(CustomError::OptionAlreadyLocked)
        } else if !(option_types[i] == 0 || option_types[i] == 1) {
            Some(CustomError::InvalidOptionType)
        } else {
            None
        };
        assert(fault == entry_fault(records@, ids@, option_types@, i as int));
        if fault.is_some() {
            proof {
                lemma_first_fault_extends(records@, ids@, option_types@, i + 1, limit as int);
            }
            return fault;
        }
        i += 1;
    }
    None
}

/// How many entries of a batch have their record read, when `read` records
/// are there for `entries` entries.
pub open spec fn entries_read(read: nat, entries: nat) -> int {
    if read < entries {
        read as int
    } else {
        entries as int
    }
}

/// What is to be done next while the records of a batch are gathered one by
/// one, `records` being those read so far, in the order of the batch.
///
/// Inputs of unequal length are refused before any record is read. A fault
/// among the entries whose record is read is reported before the next record
/// is read. Otherwise the record of the next entry is to be read, and when
/// none is left the result is `None`: the batch can be staked.
pub open spec fn gathering_step(
    records: Seq<PositionRecord>,
    ids: Seq<Pubkey>,
    lock_periods: Seq<u64>,
    option_types: Seq<u8>,
) -> Result<Option<usize>, CustomError> {
    if ids.len() != lock_periods.len() || ids.len() != option_types.len() {
        Err(CustomError::InvalidInput)
    } else {
        match first_fault(records, ids, option_types, entries_read(records.len(), ids.len())) {
            Some(fault) => Err(fault),
            None => if records.len() < ids.len() {
                Ok(Some(records.len() as usize))
            } else {
                Ok(None)
            },
        }
    }
}

/// Decides the next step of gathering the records of a batch: an error that
/// ends it, the entry whose record is to be read next, or `None` when every
/// entry has its record and none is faulty.
pub fn next_position_to_read(
    records: &Vec<PositionRecord>,
    option_pubkeys: &Vec<Pubkey>,
    lock_periods: &Vec<u64>,
    option_types: &Vec<u8>,
) -> (step: Result<Option<usize>, CustomError>)
    ensures
        step == gathering_step(records@, option_pubkeys@, lock_periods@, option_types@),
        step == Ok::<Option<usize>, CustomError>(None) ==> first_fault(
            records@,
            option_pubkeys@,
            option_types@,
            option_pubkeys.len() as int,
        ) is None,
{
    if option_pubkeys.len() != lock_periods.len() || option_pubkeys.len() != option_types.len() {
        return Err(CustomError::InvalidInput);
    }
    let read: usize = if records.len() < option_pubkeys.len() {
        records.len()
    } else {
        option_pubkeys.len()
    };
    match find_first_fault(records, option_pubkeys, option_types, read) {
        Some(fault) => Err(fault),
        None => if records.len() < option_pubkeys.len() {
            Ok(Some(records.len()))
        } else {
            Ok(None)
        },
    }
}

/// Checks the address of the account that is offered for entry `index` of a
/// batch, before its record is read: it must be the identifier that the
/// entry names.
pub fn check_position_key(option_pubkeys: &Vec<Pubkey>, index: usize, offered: Pubkey) -> (result:
    Result<(), CustomError>)
    ensures
        result is Ok <==> index < option_pubkeys.len() && option_pubkeys@[index as int] == offered,
        result is Err ==> result == Err::<(), CustomError>(CustomError::InvalidOptionAccount),
{
    if index < option_pubkeys.len() && option_pubkeys[index] == offered {
        Ok(())
    } else {
        Err(CustomError::InvalidOptionAccount)
    }
}

/// Stakes several positions at once. Entry `i` of `option_pubkeys`,
/// `lock_periods` and `option_types` describes the `i`-th position, and entry
/// `i` of the context's records is the record fetched for it.
///
/// On success every position of the batch is locked, the batch is appended to
/// the account's three sequences, and the pool's count grows by the size of
/// the batch, with the reward rate recomputed. On any error no record changes.
pub fn stake_options_in_pool(
    ctx: &mut StakeOptionsInPool,
    option_pubkeys: Vec<Pubkey>,
    lock_periods: Vec<u64>,
    option_types: Vec<u8>,
) -> (result: Result<(), CustomError>)
    ensures
        old(ctx).batch_error(option_pubkeys@, lock_periods@, option_types@) matches Some(e)
            ==> result == Err::<(), CustomError>(e),
        old(ctx).batch_error(option_pubkeys@, lock_periods@, option_types@) is None ==> result is Ok,
        result is Err ==> *final(ctx) == *old(ctx),
        result is Ok ==> final(ctx).user_account@ == account_with_batch(
            old(ctx).user_account@,
            option_pubkeys@,
            lock_periods@,
            option_types@,
        ),
        result is Ok ==> final(ctx).remaining_accounts@ == records_with_locked(
            old(ctx).remaining_accounts@,
            option_pubkeys.len() as int,
        ),
        result is Ok ==> final(ctx).staking_pool == pool_with_total(
            old(ctx).staking_pool,
            (old(ctx).staking_pool.total_staked + option_pubkeys.len()) as u64,
        ),
        result is Ok ==> final(ctx).staking_pool.total_staked == old(ctx).staking_pool.total_staked
            + option_pubkeys.len(),
        (option_pubkeys.len() != lock_periods.len() || option_pubkeys.len() != option_types.len())
            ==> result == Err::<(), CustomError>(CustomError::InvalidInput) && *final(ctx) == *old(
            ctx,
        ),
        result is Ok ==> final(ctx).staking_pool.rate_in_step(),
        old(ctx).user_account@.types_valid() ==> final(ctx).user_account@.types_valid(),
        old(ctx).user_account@.types_aligned() ==> final(ctx).user_account@.types_aligned(),
        old(ctx).user_account@.ids_unique() && (forall|i: int|
            0 <= i < option_pubkeys.len() ==> !old(ctx).user_account@.staked_options.contains(
                #[trigger] option_pubkeys@[i],
            )) ==> final(ctx).user_account@.ids_unique(),
{
    if option_pubkeys.len() != lock_periods.len() || option_pubkeys.len() != option_types.len() {
        return Err(CustomError::InvalidInput);
    }
    let count: usize = option_pubkeys.len();
    match find_first_fault(&ctx.remaining_accounts, &option_pubkeys, &option_types, count) {
        Some(fault) => {
            return Err(fault);
        },
        None => {},
    }
    let new_total: u64 = match ctx.staking_pool.total_staked.checked_add(count as u64) {
        Some(total) => total,
        None => {
            return Err(CustomError::ArithmeticError);
        },
    };
    proof {
        lemma_first_fault_is_least(
            ctx.remaining_accounts@,
            option_pubkeys@,
            option_types@,
            count as int,
        );
        if count > 0 {
            assert(entry_fault(
                ctx.remaining_accounts@,
                option_pubkeys@,
                option_types@,
                count - 1,
            ) is None);
        }
        assert forall|k: int, j: int| 0 <= j < k < count implies option_pubkeys@[j]
            != option_pubkeys@[k] by {
            assert(entry_fault(ctx.remaining_accounts@, option_pubkeys@, option_types@, k) is None);
            assert(!named_before(option_pubkeys@, k));
        }
        if ctx.user_account@.ids_unique() && (forall|i: int|
            0 <= i < option_pubkeys.len() ==> !ctx.user_account@.staked_options.contains(
                #[trigger] option_pubkeys@[i],
            )) {
            lemma_no_dup_in_concat(ctx.user_account@.staked_options, option_pubkeys@);
        }
        assert forall|k: int| 0 <= k < count implies valid_option_type(
            #[trigger] option_types@[k],
        ) by {
            assert(entry_fault(ctx.remaining_accounts@, option_pubkeys@, option_types@, k) is None);
        }
    }
    let ghost account = ctx.user_account@;
    let ghost records = ctx.remaining_accounts@;
    let ghost pool = ctx.staking_pool;
    let mut i: usize = 0;
    while i < count
        invariant
            i <= count <= records.len(),
            count == option_pubkeys.len(),
            count == lock_periods.len(),
            count == option_types.len(),
            ctx.staking_pool == pool,
            ctx.remaining_accounts@ == records_with_locked(records, i as int),
            ctx.user_account@ == account_with_batch(
                account,
                option_pubkeys@.subrange(0, i as int),
                lock_periods@.subrange(0, i as int),
                option_types@.subrange(0, i as int),
            ),
        decreases count - i,
    {
        let mut record: PositionRecord = ctx.remaining_accounts[i];
        record.contract.locked = true;
        ctx.remaining_accounts.set(i, record);
        ctx.user_account.staked_options.push(option_pubkeys[i]);
        ctx.user_account.lock_periods.push(lock_periods[i]);
        ctx.user_account.option_types.push(option_types[i]);
        proof {
            assert(option_pubkeys@.subrange(0, i + 1) == option_pubkeys@.subrange(0, i as int).push(
                option_pubkeys@[i as int],
            ));
            assert(lock_periods@.subrange(0, i + 1) == lock_periods@.subrange(0, i as int).push(
                lock_periods@[i as int],
            ));
            assert(option_types@.subrange(0, i + 1) == option_types@.subrange(0, i as int).push(
                option_types@[i as int],
            ));
        }
        i += 1;
    }
    proof {
        assert(option_pubkeys@.subrange(0, count as int) == option_pubkeys@);
        assert(lock_periods@.subrange(0, count as int) == lock_periods@);
        assert(option_types@.subrange(0, count as int) == option_types@);
    }
    ctx.staking_pool.total_staked = new_total;
    let _ = update_reward_rate(&mut ctx.staking_pool);
    Ok(())
}

} // verus!
