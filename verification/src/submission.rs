//! The submission ledger: one uniquely-keyed record per (form, respondent)
//! pair. Creating the record is the unit of idempotency for the whole
//! acceptance protocol.

use vstd::prelude::*;
use crate::errors::SubmitError;

verus! {

/// One respondent's single accepted answer to one form. Once created, a
/// record is never mutated or deleted; its existence is the sole proof that a
/// payout was attempted for that respondent on that form.
pub struct Submission {
    /// Reference to the owning form (its account id).
    pub form_id: u64,
    /// Respondent identity (account id).
    pub author: u64,
    /// Caller-chosen identifier string.
    pub id: String,
    /// Creation timestamp.
    pub created_at: i64,
    /// Content blob.
    pub content: String,
}

/// `s` is the record of respondent `respondent` on form `form_ref`.
pub open spec fn matches_pair(s: Submission, form_ref: u64, respondent: u64) -> bool {
    s.form_id == form_ref && s.author == respondent
}

/// Some record for the pair (`form_ref`, `respondent`) stands in `records`.
pub open spec fn has_pair(records: Seq<Submission>, form_ref: u64, respondent: u64) -> bool {
    exists|i: int| 0 <= i < records.len() && #[trigger] matches_pair(records[i], form_ref, respondent)
}

/// No two records in `records` share a (form, respondent) pair.
pub open spec fn unique_pairs(records: Seq<Submission>) -> bool {
    forall|i: int, j: int| #![trigger records[i], records[j]]
        0 <= i < records.len() && 0 <= j < records.len() && i != j ==> !(records[i].form_id
            == records[j].form_id && records[i].author == records[j].author)
}

/// Exact serialized size of a submission record with an identifier of
/// `id_len` bytes and content of `content_len` bytes: an 8-byte
/// discriminator, a 4-byte length prefix before each of the two
/// variable-length fields, two 32-byte identities and an 8-byte timestamp.
/// Storage must be sized for the exact anticipated lengths up front: the
/// record format treats them as fixed at creation time.
pub fn submission_space(id_len: usize, content_len: usize) -> (space: usize)
    requires
        id_len + content_len <= usize::MAX - 88,
    ensures
        space == 88 + id_len + content_len,
{
    8 + 4 + id_len + 32 + 32 + 8 + 4 + content_len
}

/// All submission records, keyed by their (form, respondent) pair.
pub struct SubmissionLedger {
    records: Vec<Submission>,
}

impl View for SubmissionLedger {
    type V = Seq<Submission>;

    closed spec fn view(&self) -> Seq<Submission> {
        self.records@
    }
}

impl SubmissionLedger {
    /// The ledger's standing invariant: at most one record per pair.
    pub open spec fn wf(&self) -> bool {
        unique_pairs(self@)
    }

    /// An empty ledger.
    pub fn new() -> (ledger: Self)
        ensures
            ledger@ == Seq::<Submission>::empty(),
            ledger.wf(),
    {
        SubmissionLedger { records: Vec::new() }
    }

    /// How many records have been created.
    pub fn len(&self) -> (n: usize)
        ensures
            n == self@.len(),
    {
        self.records.len()
    }

    /// Read access to the record at position `i`, in creation order.
    pub fn record_at(&self, i: usize) -> (record: &Submission)
        requires
            i < self@.len(),
        ensures
            *record == self@[i as int],
    {
        &self.records[i]
    }

    /// Whether the pair (`form_ref`, `respondent`) already has a record.
    pub fn contains_pair(&self, form_ref: u64, respondent: u64) -> (found: bool)
        ensures
            found == has_pair(self@, form_ref, respondent),
    {
        let n = self.records.len();
        let mut i: usize = 0;
        while i < n
            invariant
                n == self@.len(),
                0 <= i <= n,
                forall|k: int| 0 <= k < i ==> !matches_pair(self@[k], form_ref, respondent),
            decreases n - i,
        {
            let record = &self.records[i];
            if record.form_id == form_ref && record.author == respondent {
                assert(matches_pair(self@[i as int], form_ref, respondent));
                return true;
            }
            i += 1;
        }
        false
    }

    /// Create the one record for (`form_ref`, `respondent`). The slot for
    /// that exact pair must not be occupied yet: a second creation fails
    /// deterministically with `DuplicateSubmission` and changes nothing.
    /// On success the record is fully populated before any value transfer is
    /// attempted, and its position in creation order is returned.
    pub fn create_submission(
        &mut self,
        form_ref: u64,
        respondent: u64,
        submission_id: String,
        content: String,
        now: i64,
    ) -> (result: Result<usize, SubmitError>)
        requires
            old(self).wf(),
            old(self)@.len() < usize::MAX,
        ensures
            final(self).wf(),
            has_pair(old(self)@, form_ref, respondent) ==> result == Err::<usize, SubmitError>(
                SubmitError::DuplicateSubmission,
            ) && final(self)@ == old(self)@,
            !has_pair(old(self)@, form_ref, respondent) ==> result == Ok::<usize, SubmitError>(
                old(self)@.len() as usize,
            ) && final(self)@ == old(self)@.push(
                Submission {
                    form_id: form_ref,
                    author: respondent,
                    id: submission_id,
                    created_at: now,
                    content: content,
                },
            ),
    {
        if self.contains_pair(form_ref, respondent) {
            return Err(SubmitError::DuplicateSubmission);
        }
        let index = self.records.len();
        self.records.push(
            Submission {
                form_id: form_ref,
                author: respondent,
                id: submission_id,
                created_at: now,
                content: content,
            },
        );
        proof {
            let prior = old(self)@;
            let grown = self@;
            assert forall|i: int, j: int| #![trigger grown[i], grown[j]]
                0 <= i < grown.len() && 0 <= j < grown.len() && i != j implies !(grown[i].form_id
                == grown[j].form_id && grown[i].author == grown[j].author) by {
                if i < prior.len() && j < prior.len() {
                } else if j == prior.len() {
                    assert(!matches_pair(prior[i], form_ref, respondent));
                } else {
                    assert(!matches_pair(prior[j], form_ref, respondent));
                }
            }
        }
        Ok(index)
    }
}

/// At most one submission record exists for a given (form, respondent) pair:
/// in a ledger whose records have pairwise distinct pairs, two positions that
/// both hold the pair are the same position.
pub proof fn lemma_at_most_one_submission(
    records: Seq<Submission>,
    form_ref: u64,
    respondent: u64,
    i: int,
    j: int,
)
    requires
        unique_pairs(records),
        0 <= i < records.len(),
        0 <= j < records.len(),
        matches_pair(records[i], form_ref, respondent),
        matches_pair(records[j], form_ref, respondent),
    ensures
        i == j,
{
}

} // verus!
