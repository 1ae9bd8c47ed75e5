//! Parser for the batch scheduler's submission acknowledgment.
//!
//! A successful submission answers with text beginning with the literal
//! template `Submitted batch job <id>`; the id is the maximal run of
//! non-whitespace bytes after the literal prefix.

use vstd::prelude::*;

use crate::errors::JobError;
use crate::text::{ascii_bytes, is_space_byte, lit_bytes, starts_with};

verus! {

/// The literal prefix a submission acknowledgment must start with.
pub open spec fn spec_submit_prefix() -> Seq<u8> {
    ascii_bytes("Submitted batch job "@)
}

/// The maximal whitespace-free prefix of `s`.
pub open spec fn leading_token(s: Seq<u8>) -> Seq<u8>
    decreases s.len(),
{
    if s.len() == 0 || is_space_byte(s[0]) {
        Seq::empty()
    } else {
        seq![s[0]] + leading_token(s.drop_first())
    }
}

/// What parsing an acknowledgment yields: the job id, or nothing when the
/// text does not match the template.
pub open spec fn spec_parse_job_id(resp: Seq<u8>) -> Option<Seq<u8>> {
    if starts_with(resp, spec_submit_prefix()) && leading_token(
        resp.skip(spec_submit_prefix().len() as int),
    ).len() > 0 {
        Some(leading_token(resp.skip(spec_submit_prefix().len() as int)))
    } else {
        None
    }
}

/// If the first `k` bytes of `s` are non-whitespace and byte `k` (if any) is
/// whitespace, the leading token is exactly those `k` bytes.
proof fn lemma_leading_token_exact(s: Seq<u8>, k: int)
    requires
        0 <= k <= s.len(),
        forall|j: int| 0 <= j < k ==> !is_space_byte(s[j]),
        k == s.len() || is_space_byte(s[k]),
    ensures
        leading_token(s) == s.subrange(0, k),
    decreases k,
{
    if k == 0 {
        assert(leading_token(s) =~= s.subrange(0, 0));
    } else {
        lemma_leading_token_exact(s.drop_first(), k - 1);
        assert(leading_token(s) == seq![s[0]] + s.drop_first().subrange(0, k - 1));
        assert(seq![s[0]] + s.drop_first().subrange(0, k - 1) =~= s.subrange(0, k));
    }
}

/// Any acknowledgment text that does not begin with the literal submission
/// template parses to nothing, whatever else it holds.
pub proof fn lemma_unprefixed_text_never_parses(resp: Seq<u8>)
    requires
        !starts_with(resp, spec_submit_prefix()),
    ensures
        spec_parse_job_id(resp) is None,
{
}

/// Extracts the job id from a submission acknowledgment.
///
/// Returns the id exactly when the text starts with the literal template and
/// a non-empty id follows; any other text is a parse failure.
pub fn parse_job_id(resp: &[u8]) -> (r: Result<Vec<u8>, JobError>)
    ensures
        match r {
            Ok(id) => spec_parse_job_id(resp@) == Some(id@),
            Err(e) => e == JobError::Parse && spec_parse_job_id(resp@) is None,
        },
{
    proof {
        reveal_strlit("Submitted batch job ");
    }
    let prefix = lit_bytes("Submitted batch job ");
    if prefix.len() > resp.len() {
        return Err(JobError::Parse);
    }
    if !crate::text::prefix_matches(resp, prefix.as_slice()) {
        return Err(JobError::Parse);
    }
    let ghost rest: Seq<u8> = resp@.skip(spec_submit_prefix().len() as int);
    let len: usize = resp.len();
    let mut id: Vec<u8> = Vec::new();
    let mut i: usize = prefix.len();
    while i < len && !crate::text::byte_is_space(*vstd::slice::slice_index_get(resp, i))
        invariant
            prefix@ == spec_submit_prefix(),
            prefix@.len() <= i <= len,
            len == resp@.len(),
            rest == resp@.skip(prefix@.len() as int),
            id@ == resp@.subrange(prefix@.len() as int, i as int),
            forall|j: int| 0 <= j < id@.len() ==> !is_space_byte(rest[j]),
        decreases len - i,
    {
        id.push(*vstd::slice::slice_index_get(resp, i));
        i = i + 1;
        proof {
            assert(id@ =~= resp@.subrange(prefix@.len() as int, i as int));
        }
    }
    proof {
        assert(id@ =~= rest.subrange(0, id@.len() as int));
        lemma_leading_token_exact(rest, id@.len() as int);
    }
    if id.len() == 0 {
        Err(JobError::Parse)
    } else {
        Ok(id)
    }
}

} // verus!
