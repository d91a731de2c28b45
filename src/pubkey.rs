use vstd::prelude::*;

verus! {

/// Number of bytes in an account identity.
pub const PUBKEY_BYTES: usize = 32;

/// An account identity: 32 opaque bytes. The all-zero key is the null identity.
#[derive(Clone, Copy, Debug)]
pub struct Pubkey {
    pub bytes: [u8; 32],
}

impl Pubkey {
    /// The key as a sequence of bytes.
    pub open spec fn view(&self) -> Seq<u8> {
        self.bytes@
    }

    /// True when every byte of the key is zero.
    pub open spec fn spec_is_zero(&self) -> bool {
        forall|i: int| 0 <= i < PUBKEY_BYTES ==> #[trigger] self.bytes@[i] == 0u8
    }

    /// Builds a key from its bytes.
    pub fn new(bytes: [u8; 32]) -> (r: Pubkey)
        ensures
            r.bytes@ == bytes@,
    {
        Pubkey { bytes }
    }

    /// The null identity, all bytes zero.
    pub fn zero() -> (r: Pubkey)
        ensures
            r.spec_is_zero(),
    {
        let r = Pubkey { bytes: [0u8; 32] };
        assert(r.spec_is_zero());
        r
    }

    /// Whether this is the null identity.
    pub fn is_zero(&self) -> (r: bool)
        ensures
            r == self.spec_is_zero(),
    {
        let mut i: usize = 0;
        while i < PUBKEY_BYTES
            invariant
                0 <= i <= PUBKEY_BYTES,
                self.bytes@.len() == PUBKEY_BYTES,
                forall|j: int| 0 <= j < i ==> #[trigger] self.bytes@[j] == 0u8,
            decreases PUBKEY_BYTES - i,
        {
            if self.bytes[i] != 0 {
                return false;
            }
            i = i + 1;
        }
        true
    }
}

impl PartialEq for Pubkey {
    fn eq(&self, o: &Pubkey) -> (r: bool) {
        let mut i: usize = 0;
        while i < PUBKEY_BYTES
            invariant
                0 <= i <= PUBKEY_BYTES,
                self.bytes@.len() == PUBKEY_BYTES,
                o.bytes@.len() == PUBKEY_BYTES,
                forall|j: int| 0 <= j < i ==> #[trigger] self.bytes@[j] == o.bytes@[j],
            decreases PUBKEY_BYTES - i,
        {
            if self.bytes[i] != o.bytes[i] {
                return false;
            }
            i = i + 1;
        }
        assert(self.bytes@ =~= o.bytes@);
        true
    }
}

impl vstd::std_specs::cmp::PartialEqSpecImpl for Pubkey {
    open spec fn obeys_eq_spec() -> bool {
        true
    }

    open spec fn eq_spec(&self, o: &Pubkey) -> bool {
        self.bytes@ == o.bytes@
    }
}

impl Eq for Pubkey {
}

} // verus!
