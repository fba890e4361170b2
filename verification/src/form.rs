//! The form record: one survey/payment campaign and its payout bookkeeping.

use vstd::prelude::*;
use vstd::string::StringSliceAdditionalSpecFns;

verus! {

/// Number of bytes a string with these characters occupies in storage.
pub open spec fn byte_len(s: Seq<char>) -> nat {
    vstd::utf8::encode_utf8(s).len()
}

/// One survey/payment campaign. The acceptance protocol is the single writer
/// of `submissions` and `remain_sol`; every other field is set when the form
/// is created and published (out of scope here) and never changes afterwards.
///
/// Balances and payout amounts are held in the ledger's smallest unit.
/// Account identities (`system`, `owner`) are plain numeric account ids.
pub struct Form {
    /// Stable string key of the form.
    pub id: String,
    /// Custodian identity: the account funding per-respondent payouts.
    pub system: u64,
    /// Owner identity.
    pub owner: u64,
    /// Display name.
    pub name: String,
    /// Display description.
    pub description: String,
    /// Creation timestamp.
    pub created_at: i64,
    /// Opaque content blob.
    pub content: String,
    /// Visit counter; never touched by the acceptance protocol.
    pub visits: u32,
    /// Total accepted submissions; increases by exactly 1 per acceptance.
    pub submissions: u32,
    /// Total funded amount, in ledger units.
    pub sum_sol: u64,
    /// Remaining payable balance, in ledger units; never exceeds `sum_sol`
    /// and never goes negative.
    pub remain_sol: u64,
    /// Fixed payout per accepted submission, in ledger units.
    pub sol_per_user: u64,
    /// Whether the owner has published the form.
    pub published: bool,
}

impl Form {
    /// The form's standing invariant: what is still payable never exceeds
    /// what was funded.
    pub open spec fn wf(&self) -> bool {
        self.remain_sol <= self.sum_sol
    }

    /// All fields the acceptance protocol never writes are equal between
    /// `self` and `other`; only `submissions` and `remain_sol` may differ.
    pub open spec fn same_static_fields(&self, other: &Form) -> bool {
        &&& self.id == other.id
        &&& self.system == other.system
        &&& self.owner == other.owner
        &&& self.name == other.name
        &&& self.description == other.description
        &&& self.created_at == other.created_at
        &&& self.content == other.content
        &&& self.visits == other.visits
        &&& self.sum_sol == other.sum_sol
        &&& self.sol_per_user == other.sol_per_user
        &&& self.published == other.published
    }

    /// Exact serialized size of this record: an 8-byte discriminator, a
    /// 4-byte length prefix before each of the four variable-length string
    /// fields, and the fixed-width scalar fields.
    pub fn get_current_size(&self) -> (size: usize)
        requires
            byte_len(self.id@) + byte_len(self.name@) + byte_len(self.description@) + byte_len(
                self.content@,
            ) <= usize::MAX - 129,
        ensures
            size == 129 + byte_len(self.id@) + byte_len(self.name@) + byte_len(self.description@)
                + byte_len(self.content@),
    {
        8 + 4 + self.id.as_str().len() + 32 + 32 + 4 + self.name.as_str().len() + 4
            + self.description.as_str().len() + 8 + 4 + self.content.as_str().len() + 4 + 4 + 8 + 8
            + 8 + 1
    }

    /// Length in bytes of the form's content blob as currently stored.
    pub fn get_current_content_len(&self) -> (len: usize)
        requires
            byte_len(self.content@) <= usize::MAX,
        ensures
            len == byte_len(self.content@),
    {
        self.content.as_str().len()
    }
}

} // verus!
