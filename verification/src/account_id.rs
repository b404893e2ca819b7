//! The identifier of an account: the hex text of a digest of its main
//! subaddress.

use vstd::prelude::*;
use crate::encoding::{
    hex_encode, hex_lower, is_hex_char, lemma_hex_lower_injective, lemma_hex_lower_shape,
};

verus! {

/// The account id, as the hex text stored in the database.
#[derive(Debug, Clone)]
pub struct AccountID(pub String);

impl View for AccountID {
    type V = Seq<char>;

    open spec fn view(&self) -> Seq<char> {
        self.0@
    }
}

impl AccountID {
    /// The id of the account whose main subaddress has the given 32-byte
    /// digest: the digest in lowercase hex.
    pub fn from_digest(digest: &[u8; 32]) -> (id: AccountID)
        ensures
            id.0@ == hex_lower(digest@),
    {
        AccountID(hex_encode(digest))
    }

    /// A copy of the id.
    pub fn clone_id(&self) -> (copy: AccountID)
        ensures
            copy@ == self@,
    {
        AccountID(self.0.clone())
    }

    /// The id as text.
    pub fn to_string(&self) -> (text: String)
        ensures
            text@ == self.0@,
    {
        self.0.clone()
    }
}

/// The id of a 32-byte digest is 64 lowercase hex digits.
pub proof fn lemma_account_id_shape(digest: Seq<u8>)
    requires
        digest.len() == 32,
    ensures
        hex_lower(digest).len() == 64,
        forall|i: int| 0 <= i < 64 ==> is_hex_char(#[trigger] hex_lower(digest)[i]),
{
    lemma_hex_lower_shape(digest);
}

/// Accounts whose main subaddresses have distinct digests have distinct ids.
pub proof fn lemma_account_ids_distinct(a: Seq<u8>, b: Seq<u8>)
    requires
        a != b,
    ensures
        hex_lower(a) != hex_lower(b),
{
    if hex_lower(a) == hex_lower(b) {
        lemma_hex_lower_injective(a, b);
    }
}

} // verus!
