//! Fixed-width byte strings: 32-byte hashes and 20-byte account addresses.

use vstd::prelude::*;

verus! {

/// A 32-byte value: a topic of a log record, a transaction hash or a message identifier.
#[derive(Clone, Copy, Debug)]
pub struct H256(pub [u8; 32]);

/// A 20-byte account address.
#[derive(Clone, Copy, Debug)]
pub struct H160(pub [u8; 20]);

impl View for H256 {
    type V = Seq<u8>;

    open spec fn view(&self) -> Seq<u8> {
        self.0@
    }
}

impl View for H160 {
    type V = Seq<u8>;

    open spec fn view(&self) -> Seq<u8> {
        self.0@
    }
}

/// The last 20 bytes of a 32-byte word, which is where a word carries an address.
pub open spec fn address_of_word(word: Seq<u8>) -> Seq<u8> {
    word.subrange(12, 32)
}

/// The position `at` is the first one at which two byte strings hold different bytes.
pub open spec fn differ_first_at(a: Seq<u8>, b: Seq<u8>, at: int) -> bool {
    &&& 0 <= at < a.len()
    &&& at < b.len()
    &&& a[at] != b[at]
    &&& forall|j: int| 0 <= j < at ==> a[j] == b[j]
}

impl H256 {
    /// The hash of 32 zero bytes.
    pub fn zero() -> (hash: H256)
        ensures
            hash@ == Seq::new(32, |i: int| 0u8),
    {
        let hash = H256([0u8; 32]);
        assert(hash@ =~= Seq::new(32, |i: int| 0u8));
        hash
    }

    /// Reads a hash from exactly 32 bytes.
    pub fn from_slice(src: &[u8]) -> (hash: H256)
        requires
            src@.len() == 32,
        ensures
            hash@ == src@,
    {
        let mut bytes = [0u8; 32];
        let mut i: usize = 0;
        while i < 32
            invariant
                i <= 32,
                src@.len() == 32,
                forall|j: int| 0 <= j < i ==> bytes@[j] == src@[j],
            decreases 32 - i,
        {
            bytes[i] = src[i];
            i += 1;
        }
        assert(bytes@ =~= src@);
        H256(bytes)
    }

    /// The bytes of the hash, in order.
    pub fn to_vec(&self) -> (bytes: Vec<u8>)
        ensures
            bytes@ == self@,
    {
        let mut bytes: Vec<u8> = Vec::new();
        let mut i: usize = 0;
        while i < 32
            invariant
                i <= 32,
                bytes@.len() == i,
                forall|j: int| 0 <= j < i ==> bytes@[j] == self@[j],
            decreases 32 - i,
        {
            bytes.push(self.0[i]);
            i += 1;
        }
        assert(bytes@ =~= self@);
        bytes
    }

    /// The first position at which two hashes differ, if they differ at all.
    pub fn first_difference(&self, other: &H256) -> (position: Option<usize>)
        ensures
            position is None <==> self@ == other@,
            position matches Some(at) ==> differ_first_at(self@, other@, at as int),
    {
        let mut i: usize = 0;
        while i < 32
            invariant
                i <= 32,
                forall|j: int| 0 <= j < i ==> self@[j] == other@[j],
            decreases 32 - i,
        {
            if self.0[i] != other.0[i] {
                return Some(i);
            }
            i += 1;
        }
        assert(self@ =~= other@);
        None
    }

    /// The address that the hash carries in its last 20 bytes.
    pub fn to_address(&self) -> (address: H160)
        ensures
            address@ == address_of_word(self@),
    {
        let mut bytes = [0u8; 20];
        let mut i: usize = 0;
        while i < 20
            invariant
                i <= 20,
                forall|j: int| 0 <= j < i ==> bytes@[j] == self@[j + 12],
            decreases 20 - i,
        {
            bytes[i] = self.0[i + 12];
            i += 1;
        }
        assert(bytes@ =~= address_of_word(self@));
        H160(bytes)
    }
}

impl H160 {
    /// The address of 20 zero bytes.
    pub fn zero() -> (address: H160)
        ensures
            address@ == Seq::new(20, |i: int| 0u8),
    {
        let address = H160([0u8; 20]);
        assert(address@ =~= Seq::new(20, |i: int| 0u8));
        address
    }

    /// Reads an address from exactly 20 bytes.
    pub fn from_slice(src: &[u8]) -> (address: H160)
        requires
            src@.len() == 20,
        ensures
            address@ == src@,
    {
        let mut bytes = [0u8; 20];
        let mut i: usize = 0;
        while i < 20
            invariant
                i <= 20,
                src@.len() == 20,
                forall|j: int| 0 <= j < i ==> bytes@[j] == src@[j],
            decreases 20 - i,
        {
            bytes[i] = src[i];
            i += 1;
        }
        assert(bytes@ =~= src@);
        H160(bytes)
    }

    /// The bytes of the address, in order.
    pub fn to_vec(&self) -> (bytes: Vec<u8>)
        ensures
            bytes@ == self@,
    {
        let mut bytes: Vec<u8> = Vec::new();
        let mut i: usize = 0;
        while i < 20
            invariant
                i <= 20,
                bytes@.len() == i,
                forall|j: int| 0 <= j < i ==> bytes@[j] == self@[j],
            decreases 20 - i,
        {
            bytes.push(self.0[i]);
            i += 1;
        }
        assert(bytes@ =~= self@);
        bytes
    }
}

impl PartialEq for H256 {
    fn eq(&self, other: &H256) -> (equal: bool) {
        let mut i: usize = 0;
        while i < 32
            invariant
                i <= 32,
                forall|j: int| 0 <= j < i ==> self@[j] == other@[j],
            decreases 32 - i,
        {
            if self.0[i] != other.0[i] {
                return false;
            }
            i += 1;
        }
        assert(self@ =~= other@);
        true
    }
}

impl vstd::std_specs::cmp::PartialEqSpecImpl for H256 {
    open spec fn obeys_eq_spec() -> bool {
        true
    }

    open spec fn eq_spec(&self, other: &H256) -> bool {
        self@ == other@
    }
}

impl Eq for H256 {

}

impl PartialEq for H160 {
    fn eq(&self, other: &H160) -> (equal: bool) {
        let mut i: usize = 0;
        while i < 20
            invariant
                i <= 20,
                forall|j: int| 0 <= j < i ==> self@[j] == other@[j],
            decreases 20 - i,
        {
            if self.0[i] != other.0[i] {
                return false;
            }
            i += 1;
        }
        assert(self@ =~= other@);
        true
    }
}

impl vstd::std_specs::cmp::PartialEqSpecImpl for H160 {
    open spec fn obeys_eq_spec() -> bool {
        true
    }

    open spec fn eq_spec(&self, other: &H160) -> bool {
        self@ == other@
    }
}

impl Eq for H160 {

}

} // verus!
