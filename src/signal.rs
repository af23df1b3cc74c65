//! The validator support signal account: a validator's most recent support
//! signals, one per epoch, newest first.
use vstd::prelude::*;

use crate::bitmask::FeatureBitMask;
use crate::error::ProcessError;
use vstd::bytes::{
    lemma_auto_spec_u64_to_from_le_bytes, spec_u64_from_le_bytes, spec_u64_to_le_bytes,
    u64_from_le_bytes, u64_to_le_bytes,
};
use vstd::slice::slice_subrange;

verus! {

/// The number of support signals kept in a validator support signal
/// account. Stored once an epoch, a signal is rotated out after four epochs.
pub const MAX_SIGNALS: usize = 4;

/// The size in bytes of one entry: the epoch as eight little-endian bytes,
/// the mask byte and seven bytes of padding.
pub const SIGNAL_ENTRY_LEN: usize = 16;

/// The size in bytes of a validator support signal account.
pub const VALIDATOR_SUPPORT_SIGNAL_LEN: usize = 64;

/// A validator's support signal together with the epoch it is for.
#[derive(Clone, Copy, Debug, PartialEq, Eq)]
pub struct SupportSignalWithEpoch {
    /// The epoch the support signal is for.
    pub epoch: u64,
    /// The support signal bitmask.
    pub signal: FeatureBitMask,
    /// Explicit padding of the entry to sixteen bytes.
    pub padding: [u8; 7],
}

/// The bytes of one entry.
pub open spec fn entry_bytes(e: SupportSignalWithEpoch) -> Seq<u8> {
    spec_u64_to_le_bytes(e.epoch) + seq![e.signal.0] + e.padding@
}

/// A fresh entry: `epoch` and `mask`, with zero padding.
pub open spec fn fresh_entry(e: SupportSignalWithEpoch, epoch: u64, mask: u8) -> bool {
    &&& e.epoch == epoch
    &&& e.signal.0 == mask
    &&& e.padding@ == Seq::new(7, |_i: int| 0u8)
}

/// Whether `j` is the first entry for `epoch`.
pub open spec fn is_first_for_epoch(s: Seq<SupportSignalWithEpoch>, epoch: u64, j: int) -> bool {
    &&& 0 <= j < s.len()
    &&& s[j].epoch == epoch
    &&& forall|i: int| 0 <= i < j ==> s[i].epoch != epoch
}

/// Whether some entry is for `epoch`.
pub open spec fn has_epoch(s: Seq<SupportSignalWithEpoch>, epoch: u64) -> bool {
    exists|j: int| 0 <= j < s.len() && s[j].epoch == epoch
}

/// Whether the entries are for distinct epochs.
pub open spec fn distinct_epochs(s: Seq<SupportSignalWithEpoch>) -> bool {
    forall|i: int, j: int| 0 <= i < j < s.len() ==> s[i].epoch != s[j].epoch
}

/// Whether `after` is `before` once the signal `mask` is stored for
/// `epoch`: the first entry for the epoch has its mask replaced in place;
/// if there is none, a fresh entry goes to the front and the last entry
/// drops off.
pub open spec fn stored(
    before: Seq<SupportSignalWithEpoch>,
    epoch: u64,
    mask: u8,
    after: Seq<SupportSignalWithEpoch>,
) -> bool {
    if has_epoch(before, epoch) {
        exists|j: int|
            is_first_for_epoch(before, epoch, j) && after == before.update(
                j,
                SupportSignalWithEpoch { signal: FeatureBitMask(mask), ..before[j] },
            )
    } else {
        &&& after.len() == before.len()
        &&& fresh_entry(after[0], epoch, mask)
        &&& forall|i: int| 0 < i < after.len() ==> after[i] == before[i - 1]
    }
}

/// Whether `data` lays out the entries `s`, one after the other.
pub open spec fn lays_out_entries(data: Seq<u8>, s: Seq<SupportSignalWithEpoch>) -> bool {
    &&& data.len() == VALIDATOR_SUPPORT_SIGNAL_LEN
    &&& s.len() == MAX_SIGNALS
    &&& forall|j: int|
        0 <= j < MAX_SIGNALS ==> #[trigger] data.subrange(16 * j, 16 * j + 16) == entry_bytes(s[j])
}

/// After a signal is stored for an epoch, the first entry for that epoch
/// carries it.
pub proof fn lemma_store_then_get(
    before: Seq<SupportSignalWithEpoch>,
    epoch: u64,
    mask: u8,
    after: Seq<SupportSignalWithEpoch>,
)
    requires
        before.len() == MAX_SIGNALS,
        stored(before, epoch, mask, after),
    ensures
        exists|j: int| is_first_for_epoch(after, epoch, j) && after[j].signal.0 == mask,
{
    if has_epoch(before, epoch) {
        let j = choose|j: int|
            is_first_for_epoch(before, epoch, j) && after == before.update(
                j,
                SupportSignalWithEpoch { signal: FeatureBitMask(mask), ..before[j] },
            );
        assert(is_first_for_epoch(after, epoch, j));
    } else {
        assert(is_first_for_epoch(after, epoch, 0));
    }
}

/// Storing a signal for an epoch that is already held changes that entry's
/// mask alone: every entry keeps its epoch and place.
pub proof fn lemma_store_existing_in_place(
    before: Seq<SupportSignalWithEpoch>,
    epoch: u64,
    mask: u8,
    after: Seq<SupportSignalWithEpoch>,
)
    requires
        has_epoch(before, epoch),
        stored(before, epoch, mask, after),
    ensures
        after.len() == before.len(),
        forall|i: int| 0 <= i < before.len() ==> after[i].epoch == before[i].epoch,
        forall|i: int|
            0 <= i < before.len() && before[i].epoch != epoch ==> after[i] == before[i],
{
}

/// Storing a signal for a new epoch puts it at the front and moves every
/// other entry back by one; with four entries for distinct epochs, the
/// oldest (the last) is evicted, and the epochs stay distinct.
pub proof fn lemma_store_new_evicts_oldest(
    before: Seq<SupportSignalWithEpoch>,
    epoch: u64,
    mask: u8,
    after: Seq<SupportSignalWithEpoch>,
)
    requires
        before.len() == MAX_SIGNALS,
        distinct_epochs(before),
        !has_epoch(before, epoch),
        stored(before, epoch, mask, after),
    ensures
        fresh_entry(after[0], epoch, mask),
        forall|i: int| 0 < i < MAX_SIGNALS ==> after[i] == before[i - 1],
        !has_epoch(after, before[MAX_SIGNALS - 1].epoch),
        distinct_epochs(after),
{
    assert forall|i: int| 0 <= i < MAX_SIGNALS implies after[i].epoch != before[3].epoch by {
        if i > 0 {
            assert(after[i] == before[i - 1]);
        }
    }
}

/// Storing keeps the entries for distinct epochs.
pub proof fn lemma_store_keeps_epochs_distinct(
    before: Seq<SupportSignalWithEpoch>,
    epoch: u64,
    mask: u8,
    after: Seq<SupportSignalWithEpoch>,
)
    requires
        before.len() == MAX_SIGNALS,
        distinct_epochs(before),
        stored(before, epoch, mask, after),
    ensures
        distinct_epochs(after),
{
    if has_epoch(before, epoch) {
        lemma_store_existing_in_place(before, epoch, mask, after);
    } else {
        lemma_store_new_evicts_oldest(before, epoch, mask, after);
    }
}

/// The bytes of a validator support signal account determine its entries.
pub proof fn lemma_entries_layout_unique(
    data: Seq<u8>,
    s: Seq<SupportSignalWithEpoch>,
    t: Seq<SupportSignalWithEpoch>,
)
    requires
        lays_out_entries(data, s),
        lays_out_entries(data, t),
    ensures
        s == t,
{
    lemma_auto_spec_u64_to_from_le_bytes();
    assert forall|j: int| 0 <= j < MAX_SIGNALS implies s[j] == t[j] by {
        let bs = entry_bytes(s[j]);
        let bt = entry_bytes(t[j]);
        assert(bs == data.subrange(16 * j, 16 * j + 16));
        assert(bt == data.subrange(16 * j, 16 * j + 16));
        assert(spec_u64_to_le_bytes(s[j].epoch) =~= bs.subrange(0, 8));
        assert(spec_u64_to_le_bytes(t[j].epoch) =~= bt.subrange(0, 8));
        assert(spec_u64_from_le_bytes(spec_u64_to_le_bytes(s[j].epoch)) == s[j].epoch);
        assert(spec_u64_from_le_bytes(spec_u64_to_le_bytes(t[j].epoch)) == t[j].epoch);
        assert(bs[8] == s[j].signal.0);
        assert(bt[8] == t[j].signal.0);
        assert(s[j].padding@ =~= bs.subrange(9, 16));
        assert(t[j].padding@ =~= bt.subrange(9, 16));
        assert(s[j].padding =~= t[j].padding);
    }
    assert(s =~= t);
}

/// There is one first entry for an epoch.
pub proof fn lemma_first_for_epoch_unique(
    s: Seq<SupportSignalWithEpoch>,
    epoch: u64,
    j: int,
    k: int,
)
    requires
        is_first_for_epoch(s, epoch, j),
        is_first_for_epoch(s, epoch, k),
    ensures
        j == k,
{
}

/// The mask of the first entry for `epoch`, if there is one.
pub open spec fn signal_for_epoch(s: Seq<SupportSignalWithEpoch>, epoch: u64) -> Option<u8> {
    if has_epoch(s, epoch) {
        Some(s[choose|j: int| is_first_for_epoch(s, epoch, j)].signal.0)
    } else {
        None
    }
}

impl SupportSignalWithEpoch {
    /// An entry for `epoch` with the given signal and zero padding.
    pub fn new(epoch: u64, signal: FeatureBitMask) -> (r: Self)
        ensures
            fresh_entry(r, epoch, signal.0),
    {
        let r = SupportSignalWithEpoch { epoch, signal, padding: [0u8; 7] };
        assert(r.padding@ =~= Seq::new(7, |_i: int| 0u8));
        r
    }
}

/// A validator's support signals with the epochs they are for, newest
/// first.
#[derive(Clone, Copy, Debug, PartialEq, Eq)]
pub struct ValidatorSupportSignal {
    /// The support signals with their epochs.
    pub signals: [SupportSignalWithEpoch; MAX_SIGNALS],
}

impl Default for ValidatorSupportSignal {
    fn default() -> (r: ValidatorSupportSignal)
        ensures
            forall|j: int| 0 <= j < MAX_SIGNALS ==> fresh_entry(r.signals@[j], 0, 0),
    {
        let empty = SupportSignalWithEpoch::new(0, FeatureBitMask(0));
        ValidatorSupportSignal { signals: [empty; MAX_SIGNALS] }
    }
}

impl ValidatorSupportSignal {
    /// The stored signal for `epoch`, from the first entry for it.
    pub fn get_signal_for_epoch(&self, epoch: u64) -> (r: Option<&FeatureBitMask>)
        ensures
            r is Some <==> has_epoch(self.signals@, epoch),
            r matches Some(m) ==> exists|j: int|
                is_first_for_epoch(self.signals@, epoch, j) && *m == self.signals@[j].signal,
            signal_for_epoch(self.signals@, epoch) == match r {
                Some(m) => Some(m.0),
                None => None::<u8>,
            },
    {
        let mut i: usize = 0;
        while i < MAX_SIGNALS
            invariant
                i <= MAX_SIGNALS,
                forall|k: int| 0 <= k < i ==> self.signals@[k].epoch != epoch,
            decreases MAX_SIGNALS - i,
        {
            if self.signals[i].epoch == epoch {
                proof {
                    let s = self.signals@;
                    assert(is_first_for_epoch(s, epoch, i as int));
                    let c = choose|j: int| is_first_for_epoch(s, epoch, j);
                    lemma_first_for_epoch_unique(s, epoch, i as int, c);
                }
                return Some(&self.signals[i].signal);
            }
            i = i + 1;
        }
        None
    }

    /// Store a support signal for `epoch`. An entry for the epoch is
    /// updated in place; otherwise the entries shift back by one, the oldest
    /// dropping off, and the new one goes to the front.
    pub fn store_signal(&mut self, epoch: u64, signal: FeatureBitMask)
        ensures
            stored(old(self).signals@, epoch, signal.0, final(self).signals@),
    {
        let mut i: usize = 0;
        while i < MAX_SIGNALS
            invariant
                i <= MAX_SIGNALS,
                *self == *old(self),
                forall|k: int| 0 <= k < i ==> self.signals@[k].epoch != epoch,
            decreases MAX_SIGNALS - i,
        {
            if self.signals[i].epoch == epoch {
                let ghost s0 = self.signals@;
                let mut entry = self.signals[i];
                entry.signal = signal;
                self.signals[i] = entry;
                assert(is_first_for_epoch(s0, epoch, i as int));
                return;
            }
            i = i + 1;
        }
        let ghost s0 = self.signals@;
        self.signals[3] = self.signals[2];
        self.signals[2] = self.signals[1];
        self.signals[1] = self.signals[0];
        self.signals[0] = SupportSignalWithEpoch::new(epoch, signal);
        assert(forall|i: int| 0 < i < 4 ==> self.signals@[i] == s0[i - 1]);
    }
    /// Read the entries from the bytes of a validator support signal
    /// account; the data must be exactly `VALIDATOR_SUPPORT_SIGNAL_LEN`
    /// bytes long.
    pub fn from_bytes(data: &[u8]) -> (r: Result<ValidatorSupportSignal, ProcessError>)
        ensures
            r is Ok <==> data@.len() == VALIDATOR_SUPPORT_SIGNAL_LEN,
            r matches Ok(s) ==> lays_out_entries(data@, s.signals@),
            r matches Err(e) ==> e == ProcessError::InvalidAccountData,
    {
        if data.len() != VALIDATOR_SUPPORT_SIGNAL_LEN {
            return Err(ProcessError::InvalidAccountData);
        }
        let mut out = ValidatorSupportSignal::default();
        let mut j: usize = 0;
        while j < MAX_SIGNALS
            invariant
                j <= MAX_SIGNALS,
                data@.len() == VALIDATOR_SUPPORT_SIGNAL_LEN,
                out.signals@.len() == MAX_SIGNALS,
                forall|i: int|
                    0 <= i < j ==> #[trigger] data@.subrange(16 * i, 16 * i + 16) == entry_bytes(
                        out.signals@[i],
                    ),
            decreases MAX_SIGNALS - j,
        {
            let base: usize = SIGNAL_ENTRY_LEN * j;
            let epoch_bytes = slice_subrange(data, base, base + 8);
            let epoch = u64_from_le_bytes(epoch_bytes);
            let mask = data[base + 8];
            let mut padding = [0u8; 7];
            let mut k: usize = 0;
            while k < 7
                invariant
                    k <= 7,
                    base == 16 * j,
                    j < MAX_SIGNALS,
                    data@.len() == VALIDATOR_SUPPORT_SIGNAL_LEN,
                    forall|i: int| 0 <= i < k ==> padding@[i] == data@[base + 9 + i],
                decreases 7 - k,
            {
                padding[k] = data[base + 9 + k];
                k = k + 1;
            }
            let entry = SupportSignalWithEpoch { epoch, signal: FeatureBitMask(mask), padding };
            proof {
                assert(epoch_bytes@.len() == 8);
                lemma_auto_spec_u64_to_from_le_bytes();
                assert(spec_u64_to_le_bytes(spec_u64_from_le_bytes(epoch_bytes@)) == epoch_bytes@);
                assert(padding@ =~= data@.subrange(base + 9, base + 16));
                assert(data@.subrange(base as int, base + 16) =~= entry_bytes(entry));
            }
            out.signals[j] = entry;
            j = j + 1;
        }
        Ok(out)
    }

    /// The bytes of a validator support signal account holding these
    /// entries.
    pub fn to_bytes(&self) -> (r: Vec<u8>)
        ensures
            lays_out_entries(r@, self.signals@),
    {
        let mut out: Vec<u8> = Vec::new();
        let mut j: usize = 0;
        while j < MAX_SIGNALS
            invariant
                j <= MAX_SIGNALS,
                out@.len() == 16 * j,
                forall|i: int|
                    0 <= i < j ==> #[trigger] out@.subrange(16 * i, 16 * i + 16) == entry_bytes(
                        self.signals@[i],
                    ),
            decreases MAX_SIGNALS - j,
        {
            let ghost before = out@;
            let entry = self.signals[j];
            let le = u64_to_le_bytes(entry.epoch);
            let mut k: usize = 0;
            while k < 8
                invariant
                    k <= 8,
                    le@ == spec_u64_to_le_bytes(entry.epoch),
                    le@.len() == 8,
                    out@.len() == before.len() + k,
                    out@.subrange(0, before.len() as int) == before,
                    forall|i: int| 0 <= i < k ==> out@[before.len() + i] == le@[i],
                decreases 8 - k,
            {
                out.push(le[k]);
                k = k + 1;
            }
            out.push(entry.signal.0);
            let mut k: usize = 0;
            while k < 7
                invariant
                    k <= 7,
                    le@ == spec_u64_to_le_bytes(entry.epoch),
                    le@.len() == 8,
                    out@.len() == before.len() + 9 + k,
                    out@.subrange(0, before.len() as int) == before,
                    forall|i: int| 0 <= i < 8 ==> out@[before.len() + i] == le@[i],
                    out@[before.len() + 8int] == entry.signal.0,
                    forall|i: int| 0 <= i < k ==> out@[before.len() + 9 + i] == entry.padding@[i],
                decreases 7 - k,
            {
                out.push(entry.padding[k]);
                k = k + 1;
            }
            proof {
                assert(out@.subrange(16 * j, 16 * j + 16) =~= entry_bytes(entry));
                assert forall|i: int| 0 <= i < j + 1 implies #[trigger] out@.subrange(
                    16 * i,
                    16 * i + 16,
                ) == entry_bytes(self.signals@[i]) by {
                    if i < j {
                        assert(out@.subrange(16 * i, 16 * i + 16) =~= before.subrange(
                            16 * i,
                            16 * i + 16,
                        ));
                    }
                }
            }
            j = j + 1;
        }
        out
    }
}

} // verus!
