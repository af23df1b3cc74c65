//! The support signal: an eight-bit mask over the staged-feature slots.
use vstd::prelude::*;

verus! {

/// The maximum number of features that can be staged per epoch.
pub const MAX_FEATURES: usize = 8;

/// Whether `mask` signals support for the feature in `slot`: slot `j` is
/// carried by bit `7 - j`, counting from the least significant bit.
pub open spec fn flag_at(mask: u8, slot: int) -> bool {
    (mask >> ((7 - slot) as u8)) & 1u8 == 1u8
}

/// The eight per-slot flags that `mask` stands for.
pub open spec fn decode_mask(mask: u8) -> Seq<bool> {
    Seq::new(8, |j: int| flag_at(mask, j))
}

/// The mask whose slot `j` is set exactly when `flags[j]` holds.
pub open spec fn encode_flags(flags: Seq<bool>) -> u8 {
    (if flags[0] { 128u8 } else { 0u8 })
        | (if flags[1] { 64u8 } else { 0u8 })
        | (if flags[2] { 32u8 } else { 0u8 })
        | (if flags[3] { 16u8 } else { 0u8 })
        | (if flags[4] { 8u8 } else { 0u8 })
        | (if flags[5] { 4u8 } else { 0u8 })
        | (if flags[6] { 2u8 } else { 0u8 })
        | (if flags[7] { 1u8 } else { 0u8 })
}

/// A bitmask used to identify support for a set of staged features.
///
/// Bit `i` (from the least significant) set to one signals support for the
/// feature in slot `7 - i` of the staged features account: the mask
/// `0b10101010` supports the features in slots 0, 2, 4 and 6.
#[derive(Clone, Copy, Debug, Default, PartialEq, Eq, Structural)]
pub struct FeatureBitMask(pub u8);

proof fn lemma_bit_test(m: u8, i: u8)
    requires
        i < 8,
    ensures
        ((m & (1u8 << i)) != 0u8) == (((m >> i) & 1u8) == 1u8),
{
    assert(((m & (1u8 << i)) != 0u8) == (((m >> i) & 1u8) == 1u8)) by (bit_vector)
        requires
            i < 8,
    ;
}

/// Encoding the flags that a mask stands for gives back the mask.
pub proof fn lemma_encode_decode(m: u8)
    ensures
        encode_flags(decode_mask(m)) == m,
{
    let f = decode_mask(m);
    assert(f[0] == ((m >> 7u8) & 1u8 == 1u8));
    assert(f[1] == ((m >> 6u8) & 1u8 == 1u8));
    assert(f[2] == ((m >> 5u8) & 1u8 == 1u8));
    assert(f[3] == ((m >> 4u8) & 1u8 == 1u8));
    assert(f[4] == ((m >> 3u8) & 1u8 == 1u8));
    assert(f[5] == ((m >> 2u8) & 1u8 == 1u8));
    assert(f[6] == ((m >> 1u8) & 1u8 == 1u8));
    assert(f[7] == ((m >> 0u8) & 1u8 == 1u8));
    assert(((if (m >> 7u8) & 1u8 == 1u8 { 128u8 } else { 0u8 })
        | (if (m >> 6u8) & 1u8 == 1u8 { 64u8 } else { 0u8 })
        | (if (m >> 5u8) & 1u8 == 1u8 { 32u8 } else { 0u8 })
        | (if (m >> 4u8) & 1u8 == 1u8 { 16u8 } else { 0u8 })
        | (if (m >> 3u8) & 1u8 == 1u8 { 8u8 } else { 0u8 })
        | (if (m >> 2u8) & 1u8 == 1u8 { 4u8 } else { 0u8 })
        | (if (m >> 1u8) & 1u8 == 1u8 { 2u8 } else { 0u8 })
        | (if (m >> 0u8) & 1u8 == 1u8 { 1u8 } else { 0u8 })) == m) by (bit_vector);
}

/// Decoding the mask that encodes eight flags gives back the flags.
pub proof fn lemma_decode_encode(flags: Seq<bool>)
    requires
        flags.len() == 8,
    ensures
        decode_mask(encode_flags(flags)) == flags,
{
    let e = encode_flags(flags);
    let (b0, b1, b2, b3) = (flags[0], flags[1], flags[2], flags[3]);
    let (b4, b5, b6, b7) = (flags[4], flags[5], flags[6], flags[7]);
    assert(((e >> 7u8) & 1u8 == 1u8) == b0 && ((e >> 6u8) & 1u8 == 1u8) == b1 && ((e >> 5u8)
        & 1u8 == 1u8) == b2 && ((e >> 4u8) & 1u8 == 1u8) == b3 && ((e >> 3u8) & 1u8 == 1u8) == b4
        && ((e >> 2u8) & 1u8 == 1u8) == b5 && ((e >> 1u8) & 1u8 == 1u8) == b6 && ((e >> 0u8) & 1u8
        == 1u8) == b7) by (bit_vector)
        requires
            e == (if b0 { 128u8 } else { 0u8 }) | (if b1 { 64u8 } else { 0u8 }) | (if b2 {
                32u8
            } else {
                0u8
            }) | (if b3 { 16u8 } else { 0u8 }) | (if b4 { 8u8 } else { 0u8 }) | (if b5 {
                4u8
            } else {
                0u8
            }) | (if b6 { 2u8 } else { 0u8 }) | (if b7 { 1u8 } else { 0u8 }),
    ;
    assert(decode_mask(e) =~= flags);
}

impl FeatureBitMask {
    /// The raw mask byte.
    pub fn to_u8(&self) -> (r: u8)
        ensures
            r == self.0,
    {
        self.0
    }

    /// The per-slot support flags: entry `j` is bit `7 - j` of the mask.
    pub fn to_flags(&self) -> (r: [bool; MAX_FEATURES])
        ensures
            r@ == decode_mask(self.0),
    {
        let mut signals = [false; MAX_FEATURES];
        let mut i: usize = 0;
        while i < MAX_FEATURES
            invariant
                i <= MAX_FEATURES,
                signals@.len() == MAX_FEATURES,
                forall|j: int| 8 - i <= j < 8 ==> signals@[j] == flag_at(self.0, j),
            decreases MAX_FEATURES - i,
        {
            let idx: usize = MAX_FEATURES - 1 - i;
            proof {
                lemma_bit_test(self.0, i as u8);
                assert((7 - idx) as u8 == i as u8);
            }
            signals[idx] = self.0 & (1u8 << (i as u8)) != 0;
            i = i + 1;
        }
        assert(signals@ =~= decode_mask(self.0));
        signals
    }

    /// The mask that supports exactly the slots whose flag is set.
    pub fn from_flags(flags: &[bool; MAX_FEATURES]) -> (r: FeatureBitMask)
        ensures
            r.0 == encode_flags(flags@),
    {
        let m: u8 = (if flags[0] { 128u8 } else { 0u8 })
            | (if flags[1] { 64u8 } else { 0u8 })
            | (if flags[2] { 32u8 } else { 0u8 })
            | (if flags[3] { 16u8 } else { 0u8 })
            | (if flags[4] { 8u8 } else { 0u8 })
            | (if flags[5] { 4u8 } else { 0u8 })
            | (if flags[6] { 2u8 } else { 0u8 })
            | (if flags[7] { 1u8 } else { 0u8 });
        FeatureBitMask(m)
    }
}

impl<'a> From<&'a FeatureBitMask> for u8 {
    fn from(mask: &'a FeatureBitMask) -> (r: u8) {
        mask.0
    }
}

impl<'a> vstd::std_specs::convert::FromSpecImpl<&'a FeatureBitMask> for u8 {
    open spec fn obeys_from_spec() -> bool {
        true
    }

    open spec fn from_spec(mask: &'a FeatureBitMask) -> u8 {
        mask.0
    }
}

impl<'a> From<&'a FeatureBitMask> for [bool; MAX_FEATURES] {
    fn from(mask: &'a FeatureBitMask) -> (r: [bool; MAX_FEATURES]) {
        mask.to_flags()
    }
}

impl<'a> vstd::std_specs::convert::FromSpecImpl<&'a FeatureBitMask> for [bool; MAX_FEATURES] {
    open spec fn obeys_from_spec() -> bool {
        true
    }

    open spec fn from_spec(mask: &'a FeatureBitMask) -> [bool; MAX_FEATURES] {
        choose|flags: [bool; MAX_FEATURES]| flags@ == decode_mask(mask.0)
    }
}

} // verus!
