use vstd::prelude::*;

verus! {

/// Length in bytes of a key or of an address derived from one.
pub const PUBKEY_BYTES: usize = 32;

/// A 32-byte identity: an owner's public key, a program, or a derived address.
#[derive(Debug, Clone, Copy)]
pub struct Pubkey {
    pub bytes: [u8; 32],
}

impl View for Pubkey {
    type V = Seq<u8>;

    open spec fn view(&self) -> Seq<u8> {
        self.bytes@
    }
}

impl Pubkey {
    pub fn new_from_array(bytes: [u8; 32]) -> (r: Pubkey)
        ensures
            r.bytes == bytes,
            r@ == bytes@,
    {
        Pubkey { bytes }
    }

    pub fn to_bytes(&self) -> (r: [u8; 32])
        ensures
            r == self.bytes,
            r@ == self@,
    {
        self.bytes
    }

    /// Byte-wise comparison of two keys.
    pub fn key_eq(&self, other: &Pubkey) -> (r: bool)
        ensures
            r == (self@ == other@),
    {
        let mut i: usize = 0;
        while i < PUBKEY_BYTES
            invariant
                i <= PUBKEY_BYTES,
                self@.len() == 32,
                other@.len() == 32,
                forall|j: int| 0 <= j < i ==> self@[j] == other@[j],
            decreases PUBKEY_BYTES - i,
        {
            if self.bytes[i] != other.bytes[i] {
                return false;
            }
            i = i + 1;
        }
        proof {
            assert(self@ =~= other@);
        }
        true
    }
}

/// The bytes of each key, in order.
pub open spec fn keys_view(keys: Seq<Pubkey>) -> Seq<Seq<u8>> {
    keys.map_values(|k: Pubkey| k@)
}

/// Copies the bytes of each key into a vector of its own.
pub fn keys_to_bytes(keys: &Vec<Pubkey>) -> (r: Vec<Vec<u8>>)
    ensures
        r@.len() == keys@.len(),
        r@.map_values(|s: Vec<u8>| s@) == keys_view(keys@),
{
    let mut out: Vec<Vec<u8>> = Vec::new();
    let mut i: usize = 0;
    while i < keys.len()
        invariant
            i <= keys@.len(),
            out@.len() == i,
            forall|j: int| 0 <= j < i ==> #[trigger] out@[j]@ == keys@[j]@,
        decreases keys@.len() - i,
    {
        let mut bytes: Vec<u8> = Vec::new();
        let mut k: usize = 0;
        while k < PUBKEY_BYTES
            invariant
                k <= PUBKEY_BYTES,
                keys@[i as int]@.len() == 32,
                i < keys@.len(),
                bytes@ == keys@[i as int]@.subrange(0, k as int),
            decreases PUBKEY_BYTES - k,
        {
            bytes.push(keys[i].bytes[k]);
            k = k + 1;
            proof {
                assert(bytes@ =~= keys@[i as int]@.subrange(0, k as int));
            }
        }
        proof {
            assert(bytes@ =~= keys@[i as int]@);
        }
        out.push(bytes);
        i = i + 1;
    }
    proof {
        assert(out@.map_values(|s: Vec<u8>| s@) =~= keys_view(keys@));
    }
    out
}

impl PartialEq for Pubkey {
    fn eq(&self, other: &Pubkey) -> (r: bool) {
        self.key_eq(other)
    }
}

impl vstd::std_specs::cmp::PartialEqSpecImpl for Pubkey {
    open spec fn obeys_eq_spec() -> bool {
        true
    }

    open spec fn eq_spec(&self, other: &Pubkey) -> bool {
        self@ == other@
    }
}

impl Eq for Pubkey {
}

} // verus!
