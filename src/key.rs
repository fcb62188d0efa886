//! Keys that name records.

use vstd::prelude::*;

verus! {

/// A 32-byte identifier of a tariff, a reservoir or a token mint.
#[derive(Copy, Clone, Debug, Eq)]
pub struct RecordKey(pub [u8; 32]);

impl RecordKey {
    /// The bytes of the key.
    pub open spec fn bytes(self) -> Seq<u8> {
        self.0@
    }

    /// Every byte is zero: the key names no record.
    pub open spec fn is_zero(self) -> bool {
        self.bytes() == Seq::new(32, |i: int| 0u8)
    }

    /// The key of all zero bytes.
    pub fn zero() -> (r: RecordKey)
        ensures
            r.is_zero(),
    {
        let r = RecordKey([0u8; 32]);
        assert(r.bytes() =~= Seq::new(32, |i: int| 0u8));
        r
    }
}

impl PartialEq for RecordKey {
    /// Byte-wise equality.
    fn eq(&self, other: &RecordKey) -> (r: bool) {
        let mut i: usize = 0;
        while i < 32
            invariant
                0 <= i <= 32,
                forall|j: int| 0 <= j < i ==> self.0@[j] == other.0@[j],
            decreases 32 - i,
        {
            if self.0[i] != other.0[i] {
                return false;
            }
            i = i + 1;
        }
        assert(self.0 =~= other.0);
        true
    }
}

impl vstd::std_specs::cmp::PartialEqSpecImpl for RecordKey {
    open spec fn obeys_eq_spec() -> bool {
        true
    }

    open spec fn eq_spec(&self, other: &RecordKey) -> bool {
        *self == *other
    }
}

} // verus!
