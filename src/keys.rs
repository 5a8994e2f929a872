use vstd::prelude::*;

verus! {

/// A 32-byte public identity: of a mint, of an account, or of a signer.
#[derive(Clone, Copy, Debug)]
pub struct PublicKey {
    pub bytes: [u8; 32],
}

impl PublicKey {
    pub open spec fn view(self) -> Seq<u8> {
        self.bytes@
    }

    pub fn new(bytes: [u8; 32]) -> (r: PublicKey)
        ensures
            r.bytes == bytes,
    {
        PublicKey { bytes }
    }
}

impl PartialEq for PublicKey {
    fn eq(&self, o: &PublicKey) -> (r: bool) {
        let mut i: usize = 0;
        while i < 32
            invariant
                0 <= i <= 32,
                self.bytes@.len() == 32,
                o.bytes@.len() == 32,
                forall|j: int| 0 <= j < i ==> self.bytes@[j] == o.bytes@[j],
            decreases 32 - i,
        {
            if self.bytes[i] != o.bytes[i] {
                return false;
            }
            i = i + 1;
        }
        assert(self.bytes@ =~= o.bytes@);
        true
    }
}

impl vstd::std_specs::cmp::PartialEqSpecImpl for PublicKey {
    open spec fn obeys_eq_spec() -> bool {
        true
    }

    open spec fn eq_spec(&self, o: &PublicKey) -> bool {
        self.bytes@ == o.bytes@
    }
}

impl Eq for PublicKey {
}

/// Two keys are the same identity exactly when their bytes agree.
pub fn same_key(a: &PublicKey, b: &PublicKey) -> (r: bool)
    ensures
        r == (a@ == b@),
{
    a == b
}

} // verus!
