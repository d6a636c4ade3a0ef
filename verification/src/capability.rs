//! Reading a capability list from the TPM page by page: which property to
//! ask for next, and the handles that a page of the handle capability holds.

use crate::error::TpmError;
use crate::frame::codec::{read_u32, spec_be32};
use vstd::prelude::*;

verus! {

/// `TPM_CAP_HANDLES`: the handles capability.
pub const TPM_CAP_HANDLES: u32 = 0x0000_0001;

/// The property to ask for after a page: when the TPM says more data
/// follows, the property after the page's last item (`last`, none for an
/// empty page); otherwise none, and the list is complete. An empty page ends
/// the list too.
pub fn next_capability_property(more_data: bool, last: Option<u32>) -> (r: Option<u32>)
    ensures
        r == (if more_data {
            last
        } else {
            None::<u32>
        }),
{
    if more_data {
        last
    } else {
        None
    }
}

/// Adds a page of handles to `results`, and returns the handle to ask for
/// next: the one after the page's last handle when more data follows and
/// the page is not empty, none otherwise.
pub fn handle_page_step(results: &mut Vec<u32>, more_data: bool, page: &[u32]) -> (r: Option<u32>)
    requires
        more_data && page@.len() > 0 ==> page@.last() < u32::MAX,
    ensures
        final(results)@ == old(results)@ + page@,
        r == (if more_data && page@.len() > 0 {
            Some((page@.last() + 1) as u32)
        } else {
            None::<u32>
        }),
{
    let mut i: usize = 0;
    while i < page.len()
        invariant
            i <= page@.len(),
            results@ == old(results)@ + page@.take(i as int),
        decreases page@.len() - i,
    {
        results.push(page[i]);
        i = i + 1;
        assert(results@ =~= old(results)@ + page@.take(i as int));
    }
    assert(page@.take(page@.len() as int) =~= page@);
    let last = if more_data && page.len() > 0 {
        Some(page[page.len() - 1] + 1)
    } else {
        None
    };
    next_capability_property(more_data, last)
}

/// The handles a list of `count` big-endian handles from `pos` on holds.
pub open spec fn spec_handles_at(s: Seq<u8>, pos: int, count: nat) -> Seq<u32>
    decreases count,
{
    if count == 0 {
        Seq::empty()
    } else {
        seq![spec_be32(s, pos)] + spec_handles_at(s, pos + 4, (count - 1) as nat)
    }
}

/// The response parameters of `TPM2_GetCapability` for the handles
/// capability: a one-byte more-data flag (0 or 1), the capability, a
/// four-byte count and that many handles, and nothing after them. A count
/// larger than the handles that follow is `TooManyItems`.
pub open spec fn spec_parse_handle_page(s: Seq<u8>) -> Result<(bool, Seq<u32>), TpmError> {
    if s.len() < 9 {
        Err(TpmError::UnexpectedEnd { offset: 0, needed: 9, available: s.len() as usize })
    } else if s[0] > 1 {
        Err(TpmError::InvalidBoolean { offset: 0, value: s[0] as u64 })
    } else if spec_be32(s, 1) != TPM_CAP_HANDLES {
        Err(TpmError::InvalidDiscriminant { value: spec_be32(s, 1) as u64 })
    } else {
        let count = spec_be32(s, 5) as int;
        if s.len() - 9 < 4 * count {
            Err(TpmError::TooManyItems { offset: 5, limit: ((s.len() - 9) / 4) as usize, actual: count as usize })
        } else if s.len() - 9 > 4 * count {
            Err(TpmError::TrailingData { offset: (9 + 4 * count) as usize, actual: (s.len() - 9 - 4 * count) as usize })
        } else {
            Ok((s[0] == 1, spec_handles_at(s, 9, count as nat)))
        }
    }
}

proof fn lemma_handles_at_push(s: Seq<u8>, pos: int, count: nat)
    ensures
        spec_handles_at(s, pos, count + 1) == spec_handles_at(s, pos, count).push(
            spec_be32(s, pos + 4 * count),
        ),
    decreases count,
{
    if count > 0 {
        lemma_handles_at_push(s, pos + 4, (count - 1) as nat);
        assert(spec_handles_at(s, pos, count + 1) =~= spec_handles_at(s, pos, count).push(
            spec_be32(s, pos + 4 * count),
        ));
    } else {
        assert(spec_handles_at(s, pos + 4, 0) =~= Seq::<u32>::empty());
        assert(spec_handles_at(s, pos, 1) =~= seq![spec_be32(s, pos)]);
    }
}

/// Reads the response parameters of `TPM2_GetCapability` for the handles
/// capability: the more-data flag and the handles of the page.
pub fn parse_handle_page(s: &[u8]) -> (r: Result<(bool, Vec<u32>), TpmError>)
    ensures
        match spec_parse_handle_page(s@) {
            Ok((more, h)) => r matches Ok((m, v)) && m == more && v@ == h,
            Err(e) => r == Err::<(bool, Vec<u32>), TpmError>(e),
        },
{
    if s.len() < 9 {
        return Err(TpmError::UnexpectedEnd { offset: 0, needed: 9, available: s.len() });
    }
    if s[0] > 1 {
        return Err(TpmError::InvalidBoolean { offset: 0, value: s[0] as u64 });
    }
    let cap = read_u32(s, 1);
    if cap != TPM_CAP_HANDLES {
        return Err(TpmError::InvalidDiscriminant { value: cap as u64 });
    }
    let count = read_u32(s, 5) as usize;
    let avail = s.len() - 9;
    if avail / 4 < count {
        return Err(TpmError::TooManyItems { offset: 5, limit: avail / 4, actual: count });
    }
    if avail > 4 * count {
        return Err(TpmError::TrailingData { offset: 9 + 4 * count, actual: avail - 4 * count });
    }
    let mut handles: Vec<u32> = Vec::new();
    let mut i: usize = 0;
    while i < count
        invariant
            i <= count,
            9 + 4 * count == s@.len(),
            s@.len() <= usize::MAX,
            handles@ == spec_handles_at(s@, 9, i as nat),
        decreases count - i,
    {
        proof {
            lemma_handles_at_push(s@, 9, i as nat);
        }
        assert(9 + 4 * i + 4 <= s@.len());
        handles.push(read_u32(s, 9 + 4 * i));
        i = i + 1;
    }
    Ok((s[0] == 1, handles))
}

} // verus!
