//! The staged features account: the features staged for activation in one
//! epoch, with the stake that validators have signalled for each.
use vstd::prelude::*;

use crate::bitmask::{decode_mask, FeatureBitMask, MAX_FEATURES};
use crate::error::{FeatureGateError, ProcessError};
use vstd::bytes::{
    lemma_auto_spec_u64_to_from_le_bytes, spec_u64_from_le_bytes, spec_u64_to_le_bytes,
    u64_from_le_bytes, u64_to_le_bytes,
};
use vstd::slice::slice_subrange;

verus! {

/// The all-zero identifier, which marks an unoccupied slot.
pub open spec fn zero_id() -> Seq<u8> {
    Seq::new(32, |_i: int| 0u8)
}

/// Whether two identifiers are the same.
pub fn same_id(a: &[u8; 32], b: &[u8; 32]) -> (r: bool)
    ensures
        r == (a@ == b@),
{
    let mut i: usize = 0;
    while i < 32
        invariant
            i <= 32,
            forall|k: int| 0 <= k < i ==> a@[k] == b@[k],
        decreases 32 - i,
    {
        if a[i] != b[i] {
            return false;
        }
        i = i + 1;
    }
    assert(a@ =~= b@);
    true
}

/// Whether an identifier is the all-zero one.
pub fn is_zero_id(a: &[u8; 32]) -> (r: bool)
    ensures
        r == (a@ == zero_id()),
{
    let mut i: usize = 0;
    while i < 32
        invariant
            i <= 32,
            forall|k: int| 0 <= k < i ==> a@[k] == 0u8,
        decreases 32 - i,
    {
        if a[i] != 0u8 {
            assert(a@[i as int] != zero_id()[i as int]);
            return false;
        }
        i = i + 1;
    }
    assert(a@ =~= zero_id());
    true
}

/// A feature id and the stake signalled in its support.
#[derive(Clone, Copy, Debug, PartialEq, Eq)]
pub struct FeatureStake {
    /// The id of the feature.
    pub feature_id: [u8; 32],
    /// The total stake supporting the feature.
    pub stake_support: u64,
}

/// The size in bytes of one slot: the 32-byte id, then the stake as eight
/// little-endian bytes.
pub const FEATURE_STAKE_LEN: usize = 40;

/// The size in bytes of a staged features account.
pub const STAGED_FEATURES_LEN: usize = 320;

/// The bytes of one slot.
pub open spec fn slot_bytes(f: FeatureStake) -> Seq<u8> {
    f.feature_id@ + spec_u64_to_le_bytes(f.stake_support)
}

/// Whether `data` lays out the slots `s`, one after the other.
pub open spec fn lays_out_slots(data: Seq<u8>, s: Seq<FeatureStake>) -> bool {
    &&& data.len() == STAGED_FEATURES_LEN
    &&& s.len() == MAX_FEATURES
    &&& forall|j: int|
        0 <= j < MAX_FEATURES ==> #[trigger] data.subrange(40 * j, 40 * j + 40) == slot_bytes(s[j])
}

/// Whether a slot holds a feature.
pub open spec fn is_occupied(f: FeatureStake) -> bool {
    f.feature_id@ != zero_id()
}

/// The slot after `amount` of stake is added to it, if `flag` is set and
/// the slot is occupied.
pub open spec fn slot_after_add(f: FeatureStake, flag: bool, amount: u64) -> FeatureStake {
    if flag && is_occupied(f) {
        FeatureStake { stake_support: f.stake_support.saturating_add(amount), ..f }
    } else {
        f
    }
}

/// The slot after `amount` of stake is taken from it, if `flag` is set and
/// the slot is occupied.
pub open spec fn slot_after_deduct(f: FeatureStake, flag: bool, amount: u64) -> FeatureStake {
    if flag && is_occupied(f) {
        FeatureStake { stake_support: f.stake_support.saturating_sub(amount), ..f }
    } else {
        f
    }
}

/// The slots after stake is added for the features that `mask` supports.
pub open spec fn support_added(s: Seq<FeatureStake>, mask: u8, amount: u64) -> Seq<FeatureStake> {
    Seq::new(s.len(), |j: int| slot_after_add(s[j], decode_mask(mask)[j], amount))
}

/// The slots after stake is deducted for the features that `mask` supports.
pub open spec fn support_deducted(s: Seq<FeatureStake>, mask: u8, amount: u64) -> Seq<
    FeatureStake,
> {
    Seq::new(s.len(), |j: int| slot_after_deduct(s[j], decode_mask(mask)[j], amount))
}

/// Whether some occupied slot holds `id`.
pub open spec fn holds_id(s: Seq<FeatureStake>, id: Seq<u8>) -> bool {
    exists|j: int| 0 <= j < s.len() && is_occupied(s[j]) && s[j].feature_id@ == id
}

/// Whether some slot is unoccupied.
pub open spec fn has_free_slot(s: Seq<FeatureStake>) -> bool {
    exists|j: int| 0 <= j < s.len() && !is_occupied(s[j])
}

/// Whether `k` is the first unoccupied slot.
pub open spec fn is_first_free(s: Seq<FeatureStake>, k: int) -> bool {
    &&& 0 <= k < s.len()
    &&& !is_occupied(s[k])
    &&& forall|j: int| 0 <= j < k ==> is_occupied(s[j])
}

/// The first unoccupied slot, where there is one.
pub open spec fn first_free(s: Seq<FeatureStake>) -> int {
    choose|k: int| is_first_free(s, k)
}

/// The slots after `id` is staged, or the error that staging meets: an
/// occupied slot already holding `id`, or no unoccupied slot left.
pub open spec fn stage_result(s: Seq<FeatureStake>, id: [u8; 32]) -> Result<
    Seq<FeatureStake>,
    FeatureGateError,
> {
    if holds_id(s, id@) {
        Err(FeatureGateError::FeatureAlreadyStaged)
    } else if has_free_slot(s) {
        Ok(s.update(first_free(s), FeatureStake { feature_id: id, stake_support: 0 }))
    } else {
        Err(FeatureGateError::FeatureStageFull)
    }
}

/// There is one first unoccupied slot.
proof fn lemma_first_free_unique(s: Seq<FeatureStake>, k: int)
    requires
        is_first_free(s, k),
    ensures
        first_free(s) == k,
{
    let c = first_free(s);
    assert(is_first_free(s, c));
    if c < k {
        assert(is_occupied(s[c]));
    } else if c > k {
        assert(is_occupied(s[k]));
    }
}

/// Staging places a feature in the first unoccupied slot: where the first
/// `k` slots are occupied and slot `k` is not (an empty ledger: `k == 0`),
/// that slot is `k`.
pub proof fn lemma_stage_lands_after_occupied(s: Seq<FeatureStake>, k: int)
    requires
        0 <= k < s.len(),
        forall|j: int| 0 <= j < k ==> is_occupied(s[j]),
        !is_occupied(s[k]),
    ensures
        first_free(s) == k,
{
    lemma_first_free_unique(s, k);
}

/// Adding stake twice under one mask accumulates, saturating at the
/// largest `u64`: it is one addition of the saturated sum.
pub proof fn lemma_add_accumulates(s: Seq<FeatureStake>, mask: u8, a: u64, b: u64)
    ensures
        support_added(support_added(s, mask, a), mask, b) == support_added(
            s,
            mask,
            a.saturating_add(b),
        ),
{
    assert(support_added(support_added(s, mask, a), mask, b) =~= support_added(
        s,
        mask,
        a.saturating_add(b),
    ));
}

/// Deducting stake floors at zero: a slot never ends above where it was,
/// and a deduction at least as large as the slot's stake leaves zero.
pub proof fn lemma_deduct_floors(s: Seq<FeatureStake>, mask: u8, amount: u64, j: int)
    requires
        0 <= j < s.len(),
    ensures
        support_deducted(s, mask, amount)[j].stake_support <= s[j].stake_support,
        decode_mask(mask)[j] && is_occupied(s[j]) && amount >= s[j].stake_support
            ==> support_deducted(s, mask, amount)[j].stake_support == 0,
        !(decode_mask(mask)[j] && is_occupied(s[j])) ==> support_deducted(s, mask, amount)[j]
            == s[j],
{
}

/// Deducting a contribution that every supported slot still carries and
/// adding it again leaves the slots as they were.
pub proof fn lemma_deduct_then_add(s: Seq<FeatureStake>, mask: u8, amount: u64)
    requires
        forall|j: int|
            0 <= j < s.len() && decode_mask(mask)[j] && is_occupied(s[j]) ==> s[j].stake_support
                >= amount,
    ensures
        support_added(support_deducted(s, mask, amount), mask, amount) == s,
{
    assert(support_added(support_deducted(s, mask, amount), mask, amount) =~= s);
}

/// The bytes of a staged features account determine its slots.
pub proof fn lemma_slots_layout_unique(data: Seq<u8>, s: Seq<FeatureStake>, t: Seq<FeatureStake>)
    requires
        lays_out_slots(data, s),
        lays_out_slots(data, t),
    ensures
        s == t,
{
    lemma_auto_spec_u64_to_from_le_bytes();
    assert forall|j: int| 0 <= j < MAX_FEATURES implies s[j] == t[j] by {
        let bs = slot_bytes(s[j]);
        let bt = slot_bytes(t[j]);
        assert(bs == data.subrange(40 * j, 40 * j + 40));
        assert(bt == data.subrange(40 * j, 40 * j + 40));
        assert(s[j].feature_id@ =~= bs.subrange(0, 32));
        assert(t[j].feature_id@ =~= bt.subrange(0, 32));
        assert(s[j].feature_id =~= t[j].feature_id);
        assert(spec_u64_to_le_bytes(s[j].stake_support) =~= bs.subrange(32, 40));
        assert(spec_u64_to_le_bytes(t[j].stake_support) =~= bt.subrange(32, 40));
        assert(spec_u64_from_le_bytes(spec_u64_to_le_bytes(s[j].stake_support))
            == s[j].stake_support);
        assert(spec_u64_from_le_bytes(spec_u64_to_le_bytes(t[j].stake_support))
            == t[j].stake_support);
    }
    assert(s =~= t);
}

/// Features staged for activation at the end of an epoch, with the stake
/// signalled in support of each.
///
/// At most `MAX_FEATURES` features can be staged for any epoch.
#[derive(Clone, Copy, Debug, PartialEq, Eq)]
pub struct StagedFeatures {
    /// The slots, filled from the front.
    pub features: [FeatureStake; MAX_FEATURES],
}

impl FeatureStake {
    /// Whether the slot holds a feature.
    pub fn is_initialized(&self) -> (r: bool)
        ensures
            r == is_occupied(*self),
    {
        !is_zero_id(&self.feature_id)
    }

    /// Add stake support, saturating at the largest `u64`.
    pub fn add_stake_support(&mut self, stake: u64)
        ensures
            final(self).feature_id == old(self).feature_id,
            final(self).stake_support == old(self).stake_support.saturating_add(stake),
    {
        self.stake_support = self.stake_support.saturating_add(stake);
    }
}

impl Default for StagedFeatures {
    fn default() -> (r: StagedFeatures)
        ensures
            forall|j: int|
                0 <= j < MAX_FEATURES ==> r.features@[j].feature_id@ == zero_id()
                    && r.features@[j].stake_support == 0,
    {
        let empty = FeatureStake { feature_id: [0u8; 32], stake_support: 0 };
        assert(empty.feature_id@ =~= zero_id());
        StagedFeatures { features: [empty; MAX_FEATURES] }
    }
}

impl StagedFeatures {
    /// Add stake support for the features that `signal` supports.
    pub fn add_stake_support(&mut self, signal: &FeatureBitMask, vote_account_epoch_stake: u64)
        ensures
            final(self).features@ == support_added(
                old(self).features@,
                signal.0,
                vote_account_epoch_stake,
            ),
    {
        let flags = signal.to_flags();
        let ghost s0 = self.features@;
        let mut i: usize = 0;
        while i < MAX_FEATURES
            invariant
                i <= MAX_FEATURES,
                flags@ == decode_mask(signal.0),
                s0.len() == MAX_FEATURES,
                self.features@.len() == MAX_FEATURES,
                forall|j: int|
                    0 <= j < i ==> self.features@[j] == slot_after_add(
                        s0[j],
                        flags@[j],
                        vote_account_epoch_stake,
                    ),
                forall|j: int| i <= j < MAX_FEATURES ==> self.features@[j] == s0[j],
            decreases MAX_FEATURES - i,
        {
            let mut feature = self.features[i];
            if flags[i] && feature.is_initialized() {
                feature.add_stake_support(vote_account_epoch_stake);
            }
            self.features[i] = feature;
            i = i + 1;
        }
        assert(self.features@ =~= support_added(s0, signal.0, vote_account_epoch_stake));
    }

    /// Deduct stake support for the features that `signal` supports,
    /// flooring at zero.
    pub fn deduct_stake_support(&mut self, signal: &FeatureBitMask, vote_account_epoch_stake: u64)
        ensures
            final(self).features@ == support_deducted(
                old(self).features@,
                signal.0,
                vote_account_epoch_stake,
            ),
    {
        let flags = signal.to_flags();
        let ghost s0 = self.features@;
        let mut i: usize = 0;
        while i < MAX_FEATURES
            invariant
                i <= MAX_FEATURES,
                flags@ == decode_mask(signal.0),
                s0.len() == MAX_FEATURES,
                self.features@.len() == MAX_FEATURES,
                forall|j: int|
                    0 <= j < i ==> self.features@[j] == slot_after_deduct(
                        s0[j],
                        flags@[j],
                        vote_account_epoch_stake,
                    ),
                forall|j: int| i <= j < MAX_FEATURES ==> self.features@[j] == s0[j],
            decreases MAX_FEATURES - i,
        {
            let mut feature = self.features[i];
            if flags[i] && feature.is_initialized() {
                feature.stake_support = feature.stake_support.saturating_sub(
                    vote_account_epoch_stake,
                );
            }
            self.features[i] = feature;
            i = i + 1;
        }
        assert(self.features@ =~= support_deducted(s0, signal.0, vote_account_epoch_stake));
    }

    /// Stage a feature for activation in the first unoccupied slot, with no
    /// stake support yet.
    pub fn stage(&mut self, feature_id: &[u8; 32]) -> (r: Result<(), FeatureGateError>)
        ensures
            match stage_result(old(self).features@, *feature_id) {
                Ok(s1) => r is Ok && final(self).features@ == s1,
                Err(e) => r == Err::<(), FeatureGateError>(e) && *final(self) == *old(self),
            },
    {
        let mut i: usize = 0;
        while i < MAX_FEATURES
            invariant
                i <= MAX_FEATURES,
                *self == *old(self),
                self.features@.len() == MAX_FEATURES,
                forall|j: int|
                    0 <= j < i ==> !(is_occupied(self.features@[j])
                        && self.features@[j].feature_id@ == feature_id@),
            decreases MAX_FEATURES - i,
        {
            if self.features[i].is_initialized() && same_id(&self.features[i].feature_id, feature_id) {
                return Err(FeatureGateError::FeatureAlreadyStaged);
            }
            i = i + 1;
        }
        let mut k: usize = 0;
        while k < MAX_FEATURES
            invariant
                k <= MAX_FEATURES,
                *self == *old(self),
                self.features@.len() == MAX_FEATURES,
                !holds_id(old(self).features@, feature_id@),
                forall|j: int| 0 <= j < k ==> is_occupied(self.features@[j]),
            decreases MAX_FEATURES - k,
        {
            if !self.features[k].is_initialized() {
                let ghost s0 = self.features@;
                self.features[k] = FeatureStake { feature_id: *feature_id, stake_support: 0 };
                proof {
                    lemma_first_free_unique(s0, k as int);
                }
                return Ok(());
            }
            k = k + 1;
        }
        Err(FeatureGateError::FeatureStageFull)
    }
    /// Read the slots from the bytes of a staged features account; the
    /// data must be exactly `STAGED_FEATURES_LEN` bytes long.
    pub fn from_bytes(data: &[u8]) -> (r: Result<StagedFeatures, ProcessError>)
        ensures
            r is Ok <==> data@.len() == STAGED_FEATURES_LEN,
            r matches Ok(s) ==> lays_out_slots(data@, s.features@),
            r matches Err(e) ==> e == ProcessError::InvalidAccountData,
    {
        if data.len() != STAGED_FEATURES_LEN {
            return Err(ProcessError::InvalidAccountData);
        }
        let mut out = StagedFeatures::default();
        let mut j: usize = 0;
        while j < MAX_FEATURES
            invariant
                j <= MAX_FEATURES,
                data@.len() == STAGED_FEATURES_LEN,
                out.features@.len() == MAX_FEATURES,
                forall|i: int|
                    0 <= i < j ==> #[trigger] data@.subrange(40 * i, 40 * i + 40) == slot_bytes(
                        out.features@[i],
                    ),
            decreases MAX_FEATURES - j,
        {
            let base: usize = FEATURE_STAKE_LEN * j;
            let mut id = [0u8; 32];
            let mut k: usize = 0;
            while k < 32
                invariant
                    k <= 32,
                    base == 40 * j,
                    j < MAX_FEATURES,
                    data@.len() == STAGED_FEATURES_LEN,
                    forall|i: int| 0 <= i < k ==> id@[i] == data@[base + i],
                decreases 32 - k,
            {
                id[k] = data[base + k];
                k = k + 1;
            }
            let stake_bytes = slice_subrange(data, base + 32, base + 40);
            let stake = u64_from_le_bytes(stake_bytes);
            let slot = FeatureStake { feature_id: id, stake_support: stake };
            proof {
                assert(id@ =~= data@.subrange(base as int, base + 32));
                assert(stake_bytes@.len() == 8);
                lemma_auto_spec_u64_to_from_le_bytes();
                assert(spec_u64_to_le_bytes(spec_u64_from_le_bytes(stake_bytes@)) == stake_bytes@);
                assert(data@.subrange(base as int, base + 40) =~= slot_bytes(slot));
            }
            out.features[j] = slot;
            j = j + 1;
        }
        Ok(out)
    }

    /// The bytes of a staged features account holding these slots.
    pub fn to_bytes(&self) -> (r: Vec<u8>)
        ensures
            lays_out_slots(r@, self.features@),
    {
        let mut out: Vec<u8> = Vec::new();
        let mut j: usize = 0;
        while j < MAX_FEATURES
            invariant
                j <= MAX_FEATURES,
                out@.len() == 40 * j,
                forall|i: int|
                    0 <= i < j ==> #[trigger] out@.subrange(40 * i, 40 * i + 40) == slot_bytes(
                        self.features@[i],
                    ),
            decreases MAX_FEATURES - j,
        {
            let ghost before = out@;
            let slot = self.features[j];
            let mut k: usize = 0;
            while k < 32
                invariant
                    k <= 32,
                    out@.len() == before.len() + k,
                    out@.subrange(0, before.len() as int) == before,
                    forall|i: int| 0 <= i < k ==> out@[before.len() + i] == slot.feature_id@[i],
                decreases 32 - k,
            {
                out.push(slot.feature_id[k]);
                k = k + 1;
            }
            let le = u64_to_le_bytes(slot.stake_support);
            let mut k: usize = 0;
            while k < 8
                invariant
                    k <= 8,
                    le@ == spec_u64_to_le_bytes(slot.stake_support),
                    le@.len() == 8,
                    out@.len() == before.len() + 32 + k,
                    out@.subrange(0, before.len() as int) == before,
                    forall|i: int| 0 <= i < 32 ==> out@[before.len() + i] == slot.feature_id@[i],
                    forall|i: int| 0 <= i < k ==> out@[before.len() + 32 + i] == le@[i],
                decreases 8 - k,
            {
                out.push(le[k]);
                k = k + 1;
            }
            proof {
                assert(out@.subrange(40 * j, 40 * j + 40) =~= slot_bytes(slot));
                assert forall|i: int| 0 <= i < j + 1 implies #[trigger] out@.subrange(
                    40 * i,
                    40 * i + 40,
                ) == slot_bytes(self.features@[i]) by {
                    if i < j {
                        assert(out@.subrange(40 * i, 40 * i + 40) =~= before.subrange(
                            40 * i,
                            40 * i + 40,
                        ));
                    }
                }
            }
            j = j + 1;
        }
        out
    }
}

} // verus!
