use solana_program::pubkey::Pubkey;
use vstd::array::spec_array_fill_for_copy_type;
use vstd::prelude::*;
use vstd::std_specs::cmp::PartialEqSpecImpl;

verus! {

/// A 32-byte account key. Two keys are the same key exactly when their bytes agree.
#[derive(Clone, Copy, Debug)]
pub struct Key {
    pub bytes: [u8; 32],
}

impl View for Key {
    type V = Seq<u8>;

    open spec fn view(&self) -> Seq<u8> {
        self.bytes@
    }
}

impl PartialEq for Key {
    fn eq(&self, other: &Key) -> (same: bool) {
        let mut i: usize = 0;
        while i < 32
            invariant
                i <= 32,
                forall|j: int| 0 <= j < i ==> self.bytes[j] == other.bytes[j],
            decreases 32 - i,
        {
            if self.bytes[i] != other.bytes[i] {
                return false;
            }
            i += 1;
        }
        assert(self.bytes =~= other.bytes);
        true
    }
}

impl Eq for Key {

}

impl PartialEqSpecImpl for Key {
    open spec fn obeys_eq_spec() -> bool {
        true
    }

    open spec fn eq_spec(&self, other: &Key) -> bool {
        *self == *other
    }
}

/// The text form of a key with the given bytes: its base-58 rendering.
pub uninterp spec fn key_text(bytes: Seq<u8>) -> Seq<char>;

/// `Pubkey::new_from_array` followed by the key's `Display` rendering
/// (`to_string`). The text is a function of the 32 bytes alone; it is named
/// `key_text` and nothing else is claimed of it.
#[verifier::external_body]
pub(crate) fn render_key(key: &Key) -> (text: String)
    ensures
        text@ == key_text(key@),
{
    Pubkey::new_from_array(key.bytes).to_string()
}

impl Key {
    /// The key with the given bytes.
    pub fn new(bytes: [u8; 32]) -> (key: Key)
        ensures
            key.bytes == bytes,
    {
        Key { bytes }
    }

    /// The null key: 32 zero bytes. It stands in an owner field for "nobody".
    pub open spec fn null() -> Key {
        Key { bytes: spec_array_fill_for_copy_type::<u8, 32>(0u8) }
    }

    /// The key's bytes.
    pub fn to_bytes(&self) -> (bytes: [u8; 32])
        ensures
            bytes == self.bytes,
    {
        self.bytes
    }

    /// Every byte of the null key is zero.
    pub proof fn lemma_null_is_all_zero()
        ensures
            Key::null()@ == Seq::new(32, |i: int| 0u8),
    {
        assert(Key::null()@ =~= Seq::new(32, |i: int| 0u8));
    }

    /// Keys with the same bytes are the same key.
    pub proof fn lemma_same_bytes(a: Key, b: Key)
        requires
            a@ == b@,
        ensures
            a == b,
    {
        assert(a.bytes =~= b.bytes);
    }
}

impl Default for Key {
    /// The null key: 32 zero bytes.
    fn default() -> (key: Key)
        ensures
            key == Key::null(),
    {
        Key { bytes: [0u8; 32] }
    }
}

} // verus!
