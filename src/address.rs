//! Ledger addresses: an account (an ed25519 public key) or a contract (a
//! contract id), each 32 bytes.
use vstd::prelude::*;

verus! {

/// A 32-byte digest: a name hash or a commitment.
pub type Digest = [u8; 32];

/// Compares two digests byte by byte.
pub fn digest_eq(a: &Digest, b: &Digest) -> (r: bool)
    ensures
        r == (*a == *b),
{
    let mut i: usize = 0;
    while i < 32
        invariant
            i <= 32,
            forall|j: int| 0 <= j < i ==> a[j] == b[j],
        decreases 32 - i,
    {
        if a[i] != b[i] {
            return false;
        }
        i = i + 1;
    }
    assert(*a =~= *b);
    true
}

/// Two digests with the same bytes are the same digest.
pub proof fn lemma_digest_view_injective(a: Digest, b: Digest)
    requires
        a@ == b@,
    ensures
        a == b,
{
    assert forall|i: int| 0 <= i < 32 implies a[i] == b[i] by {
        assert(a@[i] == b@[i]);
    }
    assert(a =~= b);
}

#[derive(Clone, Copy, Debug)]
pub enum Address {
    Account([u8; 32]),
    Contract([u8; 32]),
}

impl Address {
    /// The XDR encoding of the address as a contract value (`ScVal::Address`).
    pub open spec fn xdr(self) -> Seq<u8> {
        match self {
            Address::Account(key) => seq![0u8, 0, 0, 18, 0, 0, 0, 0, 0, 0, 0, 0] + key@,
            Address::Contract(id) => seq![0u8, 0, 0, 18, 0, 0, 0, 1] + id@,
        }
    }

    /// The account whose public key is all zeros, which owns and resolves nothing.
    pub open spec fn is_zero(self) -> bool {
        match self {
            Address::Account(key) => forall|i: int| 0 <= i < 32 ==> key[i] == 0u8,
            Address::Contract(_) => false,
        }
    }

    pub fn is_zero_account(&self) -> (r: bool)
        ensures
            r == self.is_zero(),
    {
        match self {
            Address::Account(key) => {
                let mut i: usize = 0;
                while i < 32
                    invariant
                        i <= 32,
                        *self == Address::Account(*key),
                        forall|j: int| 0 <= j < i ==> key[j] == 0,
                    decreases 32 - i,
                {
                    if key[i] != 0 {
                        assert(self->Account_0[i as int] != 0);
                        return false;
                    }
                    i = i + 1;
                }
                true
            },
            Address::Contract(_) => false,
        }
    }
}

impl PartialEq for Address {
    fn eq(&self, other: &Address) -> (r: bool) {
        match (self, other) {
            (Address::Account(a), Address::Account(b)) => digest_eq(a, b),
            (Address::Contract(a), Address::Contract(b)) => digest_eq(a, b),
            _ => false,
        }
    }
}

impl vstd::std_specs::cmp::PartialEqSpecImpl for Address {
    open spec fn obeys_eq_spec() -> bool {
        true
    }

    open spec fn eq_spec(&self, other: &Address) -> bool {
        *self == *other
    }
}

impl Eq for Address {
}

/// Whether `a` is among the addresses that authorized the current invocation.
pub fn is_authorized(signers: &Vec<Address>, a: &Address) -> (r: bool)
    ensures
        r == signers@.contains(*a),
{
    let mut i: usize = 0;
    while i < signers.len()
        invariant
            i <= signers@.len(),
            forall|j: int| 0 <= j < i ==> signers@[j] != *a,
        decreases signers@.len() - i,
    {
        if signers[i] == *a {
            return true;
        }
        i = i + 1;
    }
    false
}

} // verus!
