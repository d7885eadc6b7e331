//! Who makes a call: account identities and call origins.

use vstd::prelude::*;

verus! {

/// The identity of an account: 32 bytes.
#[derive(Debug, Copy, Clone, PartialEq, Eq)]
pub struct AccountId {
    pub bytes: [u8; 32],
}

impl View for AccountId {
    type V = Seq<u8>;

    open spec fn view(&self) -> Seq<u8> {
        self.bytes@
    }
}

impl AccountId {
    /// The identity made of the given bytes.
    pub fn new(bytes: [u8; 32]) -> (id: AccountId)
        ensures
            id@ == bytes@,
            id.bytes == bytes,
    {
        AccountId { bytes }
    }

    /// Whether two identities hold the same bytes.
    pub fn same_as(&self, other: &AccountId) -> (same: bool)
        ensures
            same == (self@ == other@),
            same == (*self == *other),
    {
        let mut i: usize = 0;
        while i < 32
            invariant
                i <= 32,
                forall|k: int| 0 <= k < i ==> self.bytes@[k] == other.bytes@[k],
            decreases 32 - i,
        {
            if self.bytes[i] != other.bytes[i] {
                return false;
            }
            i = i + 1;
        }
        assert(self.bytes@ =~= other.bytes@);
        assert(self.bytes == other.bytes);
        true
    }
}

/// Where a call into the host comes from.
#[derive(Debug, Copy, Clone, PartialEq, Eq)]
pub enum Origin {
    /// The system itself.
    Root,
    /// An account that signed the call.
    Signed(AccountId),
    /// Nobody: the call carries no signature.
    Unsigned,
}

impl Origin {
    /// The account that signed the call, if one did.
    pub open spec fn signer(self) -> Option<AccountId> {
        match self {
            Origin::Signed(who) => Some(who),
            _ => None,
        }
    }

    /// The account that signed the call, if one did.
    pub fn ensure_signed(&self) -> (who: Option<AccountId>)
        ensures
            who == self.signer(),
    {
        match self {
            Origin::Signed(who) => Some(*who),
            _ => None,
        }
    }
}

} // verus!
