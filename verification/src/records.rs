//! The records that the engine reads and writes: the pool, a participant's
//! account and a single option position.

use crate::identity::Pubkey;
use vstd::prelude::*;

verus! {

/// Pool-wide counters and parameters. One exists per deployment.
#[derive(Clone, Copy, Debug)]
pub struct StakingPool {
    /// Number of positions that are currently locked.
    pub total_staked: u64,
    /// Reward tokens reserved for compounding.
    pub reward_pool: u64,
    /// Current reward rate, derived from `total_staked`.
    pub reward_rate: u64,
    /// Default lock period, in seconds.
    pub lock_period: u64,
    /// Share of the reward balance, in percent, lost on early exit.
    pub early_unstake_penalty_rate: u64,
    /// Identity that may change the pool's parameters.
    pub admin: Pubkey,
    /// Bump seed of the pool's delegated signing authority.
    pub pool_authority_bump: u8,
}

/// A single lockable option position.
#[derive(Clone, Copy, Debug)]
pub struct OptionContract {
    /// 0 for a call, 1 for a put.
    pub option_type: u8,
    /// Strike price of the option.
    pub strike_price: u64,
    /// Expiry date of the option.
    pub expiry: u64,
    /// True while the position is locked for staking.
    pub locked: bool,
}

/// A position record as the record store hands it out: its address and its content.
#[derive(Clone, Copy, Debug)]
pub struct PositionRecord {
    /// Address under which the store keeps the position.
    pub key: Pubkey,
    /// The position itself.
    pub contract: OptionContract,
}

/// One participant's staked positions, reward balance and lock metadata.
#[derive(Debug)]
pub struct UserAccount {
    /// The participant.
    pub user_pubkey: Pubkey,
    /// Identifiers of the staked positions, in the order they were staked.
    pub staked_options: Vec<Pubkey>,
    /// Reward accumulated and not yet claimed.
    pub reward_balance: u64,
    /// Time of the most recent lock event, in seconds.
    pub staking_start_time: u64,
    /// Lock period of single-position staking, in seconds.
    pub lock_period: u64,
    /// Lock periods recorded by batch staking.
    pub lock_periods: Vec<u64>,
    /// Option types of the staked positions (0 = call, 1 = put).
    pub option_types: Vec<u8>,
}

/// The mathematical content of a [`UserAccount`].
pub struct UserAccountView {
    pub user_pubkey: Pubkey,
    pub staked_options: Seq<Pubkey>,
    pub reward_balance: u64,
    pub staking_start_time: u64,
    pub lock_period: u64,
    pub lock_periods: Seq<u64>,
    pub option_types: Seq<u8>,
}

impl View for UserAccount {
    type V = UserAccountView;

    open spec fn view(&self) -> UserAccountView {
        UserAccountView {
            user_pubkey: self.user_pubkey,
            staked_options: self.staked_options@,
            reward_balance: self.reward_balance,
            staking_start_time: self.staking_start_time,
            lock_period: self.lock_period,
            lock_periods: self.lock_periods@,
            option_types: self.option_types@,
        }
    }
}

/// True of the two option types that exist: call (0) and put (1).
pub open spec fn valid_option_type(option_type: u8) -> bool {
    option_type == 0 || option_type == 1
}

/// The test that an identifier is not `key`.
pub open spec fn other_than_key(key: Pubkey) -> spec_fn(Pubkey) -> bool {
    |id: Pubkey| id != key
}

/// The identifiers of `ids` that differ from `key`, in their order.
pub open spec fn without_key(ids: Seq<Pubkey>, key: Pubkey) -> Seq<Pubkey> {
    ids.filter(other_than_key(key))
}

/// The option types of the positions other than `key`, in their order: entry
/// `i` of `option_types` is left out where entry `i` of `ids` is `key`, and
/// stays otherwise. An entry beyond the end of `ids` belongs to no position
/// and stays.
pub open spec fn types_without_key(ids: Seq<Pubkey>, option_types: Seq<u8>, key: Pubkey) -> Seq<u8>
    decreases option_types.len(),
{
    if option_types.len() == 0 {
        option_types
    } else if option_types.len() <= ids.len() && ids[option_types.len() - 1] == key {
        types_without_key(ids, option_types.drop_last(), key)
    } else {
        types_without_key(ids, option_types.drop_last(), key).push(option_types.last())
    }
}

/// The record with its position unlocked.
pub open spec fn unlocked_record(record: PositionRecord) -> PositionRecord {
    PositionRecord { key: record.key, contract: OptionContract { locked: false, ..record.contract } }
}

/// The record with its position locked.
pub open spec fn locked_record(record: PositionRecord) -> PositionRecord {
    PositionRecord { key: record.key, contract: OptionContract { locked: true, ..record.contract } }
}

impl UserAccountView {
    /// No position is recorded twice.
    pub open spec fn ids_unique(self) -> bool {
        self.staked_options.no_duplicates()
    }

    /// There is one recorded option type for each staked position.
    pub open spec fn types_aligned(self) -> bool {
        self.option_types.len() == self.staked_options.len()
    }

    /// Every recorded option type is a call or a put.
    pub open spec fn types_valid(self) -> bool {
        forall|i: int|
            0 <= i < self.option_types.len() ==> valid_option_type(#[trigger] self.option_types[i])
    }
}

/// Taking `key` out leaves no occurrence of it, keeps every other identifier
/// that was there, and adds none.
pub proof fn lemma_without_key(ids: Seq<Pubkey>, key: Pubkey)
    ensures
        !without_key(ids, key).contains(key),
        without_key(ids, key).len() <= ids.len(),
        forall|id: Pubkey| #[trigger]
            without_key(ids, key).contains(id) <==> ids.contains(id) && id != key,
{
    let pred = other_than_key(key);
    let kept = ids.filter(pred);
    ids.lemma_filter_len(pred);
    assert forall|id: Pubkey| #[trigger] kept.contains(id) <==> ids.contains(id) && id != key by {
        if kept.contains(id) {
            let i = choose|i: int| 0 <= i < kept.len() && kept[i] == id;
            ids.lemma_filter_pred(pred, i);
            ids.lemma_filter_contains_rev(pred, id);
        }
        if ids.contains(id) && id != key {
            let i = choose|i: int| 0 <= i < ids.len() && ids[i] == id;
            ids.lemma_filter_contains(pred, i);
        }
    }
}

/// Taking `key` out of identifiers that are all different leaves them all different.
pub proof fn lemma_without_key_keeps_unique(ids: Seq<Pubkey>, key: Pubkey)
    requires
        ids.no_duplicates(),
    ensures
        without_key(ids, key).no_duplicates(),
    decreases ids.len(),
{
    reveal(Seq::filter);
    if ids.len() > 0 {
        let rest = ids.drop_last();
        lemma_without_key_keeps_unique(rest, key);
        let kept = without_key(rest, key);
        if ids.last() != key {
            if kept.contains(ids.last()) {
                rest.lemma_filter_contains_rev(other_than_key(key), ids.last());
                let j = choose|j: int| 0 <= j < rest.len() && rest[j] == ids.last();
                assert(ids[j] == ids[ids.len() - 1]);
            }
            assert(without_key(ids, key) == kept.push(ids.last()));
        }
    }
}

/// Taking the types of a position out of calls and puts leaves calls and puts.
pub proof fn lemma_types_without_key_keeps_valid(
    ids: Seq<Pubkey>,
    option_types: Seq<u8>,
    key: Pubkey,
)
    requires
        forall|i: int| 0 <= i < option_types.len() ==> valid_option_type(#[trigger] option_types[i]),
    ensures
        forall|i: int|
            0 <= i < types_without_key(ids, option_types, key).len() ==> valid_option_type(
                #[trigger] types_without_key(ids, option_types, key)[i],
            ),
    decreases option_types.len(),
{
    if option_types.len() > 0 {
        let rest = option_types.drop_last();
        assert forall|i: int| 0 <= i < rest.len() implies valid_option_type(#[trigger] rest[i]) by {
            assert(rest[i] == option_types[i]);
        }
        lemma_types_without_key_keeps_valid(ids, rest, key);
        let kept = types_without_key(ids, option_types, key);
        let kept_rest = types_without_key(ids, rest, key);
        assert(valid_option_type(option_types[option_types.len() - 1]));
        assert forall|i: int| 0 <= i < kept.len() implies valid_option_type(#[trigger] kept[i]) by {
            if i < kept_rest.len() {
                assert(kept[i] == kept_rest[i]);
            }
        }
    }
}

/// Where each of the types belongs to an identifier, as many types stay as
/// identifiers stay among those that have a type.
pub proof fn lemma_types_without_key_len(ids: Seq<Pubkey>, option_types: Seq<u8>, key: Pubkey)
    requires
        option_types.len() <= ids.len(),
    ensures
        types_without_key(ids, option_types, key).len() == without_key(
            ids.subrange(0, option_types.len() as int),
            key,
        ).len(),
    decreases option_types.len(),
{
    reveal(Seq::filter);
    let n = option_types.len() as int;
    if n > 0 {
        lemma_types_without_key_len(ids, option_types.drop_last(), key);
        assert(ids.subrange(0, n).drop_last() == ids.subrange(0, n - 1));
    }
}

/// The staked positions as pairs of identifier and option type, for
/// identifiers and types of equal length.
pub open spec fn positions(ids: Seq<Pubkey>, option_types: Seq<u8>) -> Seq<(Pubkey, u8)> {
    Seq::new(ids.len(), |i: int| (ids[i], option_types[i]))
}

/// The test that a position is not the one at `key`.
pub open spec fn position_other_than(key: Pubkey) -> spec_fn((Pubkey, u8)) -> bool {
    |position: (Pubkey, u8)| position.0 != key
}

/// Among the first `n` positions, taking `key` out of the identifiers and
/// its types out of the types leaves the pairs other than `key`.
proof fn lemma_removal_keeps_pairs_upto(
    ids: Seq<Pubkey>,
    option_types: Seq<u8>,
    key: Pubkey,
    n: int,
)
    requires
        option_types.len() == ids.len(),
        0 <= n <= ids.len(),
    ensures
        positions(
            without_key(ids.subrange(0, n), key),
            types_without_key(ids, option_types.subrange(0, n), key),
        ) == positions(ids.subrange(0, n), option_types.subrange(0, n)).filter(
            position_other_than(key),
        ),
    decreases n,
{
    reveal(Seq::filter);
    let ids_n = ids.subrange(0, n);
    let types_n = option_types.subrange(0, n);
    let pairs_n = positions(ids_n, types_n);
    if n == 0 {
        assert(positions(without_key(ids_n, key), types_without_key(ids, types_n, key))
            == pairs_n.filter(position_other_than(key)));
    } else {
        let ids_m = ids.subrange(0, n - 1);
        let types_m = option_types.subrange(0, n - 1);
        lemma_removal_keeps_pairs_upto(ids, option_types, key, n - 1);
        lemma_types_without_key_len(ids, types_m, key);
        assert(ids_n.drop_last() == ids_m);
        assert(types_n.drop_last() == types_m);
        assert(pairs_n.drop_last() == positions(ids_m, types_m));
        assert(pairs_n.last() == (ids[n - 1], option_types[n - 1]));
        let kept_ids = without_key(ids_m, key);
        let kept_types = types_without_key(ids, types_m, key);
        if ids[n - 1] != key {
            assert(without_key(ids_n, key) == kept_ids.push(ids[n - 1]));
            assert(types_without_key(ids, types_n, key) == kept_types.push(option_types[n - 1]));
            assert(positions(kept_ids.push(ids[n - 1]), kept_types.push(option_types[n - 1]))
                == positions(kept_ids, kept_types).push((ids[n - 1], option_types[n - 1])));
        }
    }
}

/// Where identifiers and types are aligned, taking the position at `key` out
/// leaves every other position with its own option type, in the same order.
pub proof fn lemma_removal_keeps_pairs(ids: Seq<Pubkey>, option_types: Seq<u8>, key: Pubkey)
    requires
        option_types.len() == ids.len(),
    ensures
        positions(without_key(ids, key), types_without_key(ids, option_types, key)) == positions(
            ids,
            option_types,
        ).filter(position_other_than(key)),
{
    lemma_removal_keeps_pairs_upto(ids, option_types, key, ids.len() as int);
    assert(ids.subrange(0, ids.len() as int) == ids);
    assert(option_types.subrange(0, ids.len() as int) == option_types);
}

/// Taking a position out of identifiers and types that are aligned leaves
/// them aligned.
pub proof fn lemma_removal_keeps_aligned(ids: Seq<Pubkey>, option_types: Seq<u8>, key: Pubkey)
    requires
        option_types.len() == ids.len(),
    ensures
        types_without_key(ids, option_types, key).len() == without_key(ids, key).len(),
{
    lemma_types_without_key_len(ids, option_types, key);
    assert(ids.subrange(0, ids.len() as int) == ids);
}

/// Copies the identifiers that differ from `key`, keeping their order.
pub fn remove_key(ids: &Vec<Pubkey>, key: Pubkey) -> (kept: Vec<Pubkey>)
    ensures
        kept@ == without_key(ids@, key),
{
    let mut kept: Vec<Pubkey> = Vec::new();
    let mut i: usize = 0;
    proof {
        reveal(Seq::filter);
        assert(ids@.subrange(0, 0) == Seq::<Pubkey>::empty());
    }
    while i < ids.len()
        invariant
            i <= ids.len(),
            kept@ == without_key(ids@.subrange(0, i as int), key),
        decreases ids.len() - i,
    {
        proof {
            reveal(Seq::filter);
            assert(ids@.subrange(0, i + 1).drop_last() == ids@.subrange(0, i as int));
        }
        if ids[i] != key {
            kept.push(ids[i]);
        }
        i += 1;
    }
    assert(ids@.subrange(0, ids.len() as int) == ids@);
    kept
}

/// Copies the option types of the positions other than `key`, keeping their
/// order: entry `i` is left out where entry `i` of `ids` is `key`.
pub fn remove_types_of_key(ids: &Vec<Pubkey>, option_types: &Vec<u8>, key: Pubkey) -> (kept: Vec<u8>)
    ensures
        kept@ == types_without_key(ids@, option_types@, key),
{
    let mut kept: Vec<u8> = Vec::new();
    let mut i: usize = 0;
    assert(option_types@.subrange(0, 0) == Seq::<u8>::empty());
    while i < option_types.len()
        invariant
            i <= option_types.len(),
            kept@ == types_without_key(ids@, option_types@.subrange(0, i as int), key),
        decreases option_types.len() - i,
    {
        assert(option_types@.subrange(0, i + 1).drop_last() == option_types@.subrange(0, i as int));
        if i >= ids.len() || ids[i] != key {
            kept.push(option_types[i]);
        }
        i += 1;
    }
    assert(option_types@.subrange(0, option_types.len() as int) == option_types@);
    kept
}

} // verus!
