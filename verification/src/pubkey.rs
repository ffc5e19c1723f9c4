use vstd::prelude::*;

verus! {

/// The address of an account: 32 bytes.
#[derive(Clone, Copy, Debug)]
pub struct Pubkey(pub [u8; 32]);

impl View for Pubkey {
    type V = Seq<u8>;

    open spec fn view(&self) -> Seq<u8> {
        self.0@
    }
}

impl PartialEq for Pubkey {
    fn eq(&self, other: &Pubkey) -> (same: bool) {
        let mut i: usize = 0;
        while i < 32
            invariant
                i <= 32,
                forall|j: int| 0 <= j < i ==> self.0@[j] == other.0@[j],
            decreases 32 - i,
        {
            if self.0[i] != other.0[i] {
                return false;
            }
            i += 1;
        }
        assert(self.0 =~= other.0);
        true
    }
}

impl vstd::std_specs::cmp::PartialEqSpecImpl for Pubkey {
    open spec fn obeys_eq_spec() -> bool {
        true
    }

    open spec fn eq_spec(&self, other: &Pubkey) -> bool {
        *self == *other
    }
}

impl Eq for Pubkey {

}

impl Pubkey {
    /// The key that holds the given bytes.
    pub fn new_from_array(bytes: [u8; 32]) -> (key: Pubkey)
        ensures
            key.0 == bytes,
            key@ == bytes@,
    {
        Pubkey(bytes)
    }

    /// The key's 32 bytes.
    pub fn to_bytes(&self) -> (bytes: [u8; 32])
        ensures
            bytes == self.0,
            bytes@ == self@,
    {
        self.0
    }

    /// The key's 32 bytes, as a vector.
    pub fn to_vec(&self) -> (bytes: Vec<u8>)
        ensures
            bytes@ == self@,
    {
        let mut bytes: Vec<u8> = Vec::new();
        let mut i: usize = 0;
        while i < 32
            invariant
                i <= 32,
                bytes@ == self@.take(i as int),
            decreases 32 - i,
        {
            bytes.push(self.0[i]);
            assert(self@.take(i + 1) =~= self@.take(i as int).push(self@[i as int]));
            i += 1;
        }
        assert(self@.take(32) =~= self@);
        bytes
    }

    /// The key whose bytes are `bytes`, where `bytes` has the length of a key.
    pub open spec fn with_bytes(bytes: Seq<u8>) -> Pubkey {
        choose|key: Pubkey| key@ == bytes
    }

    /// Two keys with the same bytes are the same key.
    pub proof fn lemma_same_bytes(a: Pubkey, b: Pubkey)
        requires
            a@ == b@,
        ensures
            a == b,
    {
        assert(a.0 =~= b.0);
    }

    /// `with_bytes` gives back the key that the bytes came from.
    pub proof fn lemma_with_bytes(key: Pubkey)
        ensures
            Pubkey::with_bytes(key@) == key,
            key@.len() == 32,
    {
        Pubkey::lemma_same_bytes(Pubkey::with_bytes(key@), key);
    }
}

/// Whether `key` is one of `keys`.
pub fn contains_key(keys: &Vec<Pubkey>, key: &Pubkey) -> (found: bool)
    ensures
        found == keys@.contains(*key),
{
    position_of(keys, key).is_some()
}

/// Whether `i` is the first position at which `key` stands in `keys`.
pub open spec fn is_first_position(keys: Seq<Pubkey>, key: Pubkey, i: int) -> bool {
    &&& 0 <= i < keys.len()
    &&& keys[i] == key
    &&& forall|j: int| 0 <= j < i ==> keys[j] != key
}

/// The first position at which `key` stands in `keys`, where it is one of
/// them.
pub open spec fn first_position(keys: Seq<Pubkey>, key: Pubkey) -> int {
    choose|i: int| is_first_position(keys, key, i)
}

/// A key has one first position at most.
pub proof fn lemma_first_position(keys: Seq<Pubkey>, key: Pubkey, i: int)
    requires
        is_first_position(keys, key, i),
    ensures
        first_position(keys, key) == i,
        keys.contains(key),
{
    let chosen = first_position(keys, key);
    assert(is_first_position(keys, key, chosen));
    if chosen < i {
        assert(keys[chosen] == key);
    } else if i < chosen {
        assert(keys[i] == key);
    }
}

/// The first position at which `key` stands in `keys`, if it is one of them.
pub fn position_of(keys: &Vec<Pubkey>, key: &Pubkey) -> (at: Option<usize>)
    ensures
        match at {
            Some(i) => is_first_position(keys@, *key, i as int) && first_position(keys@, *key) == i,
            None => !keys@.contains(*key),
        },
{
    let mut i: usize = 0;
    while i < keys.len()
        invariant
            i <= keys.len(),
            forall|j: int| 0 <= j < i ==> keys@[j] != *key,
        decreases keys.len() - i,
    {
        if keys[i] == *key {
            proof {
                lemma_first_position(keys@, *key, i as int);
            }
            return Some(i);
        }
        i += 1;
    }
    None
}

} // verus!
