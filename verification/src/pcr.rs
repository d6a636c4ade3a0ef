//! Reading PCR banks: which digests a read returned for which registers,
//! and what is left to read.

use crate::data::alg::TpmAlgId;
use crate::data::pcr::{selections_view, spec_mask_pcrs, PcrSelectionView, TpmsPcrSelect, TpmsPcrSelection};
use vstd::prelude::*;
use vstd::slice::slice_to_vec;

verus! {

/// Why PCR values could not be taken from a read.
#[derive(Debug, Clone, Copy, PartialEq, Eq, Structural)]
pub enum PcrError {
    /// A list would exceed its capacity.
    CapacityExceeded,
    /// A read returned a bank that was not asked for.
    InvalidAlgorithm(TpmAlgId),
    /// A read returned fewer digests than registers.
    PcrDigestMissing,
}

/// The digest of one register of one bank.
#[derive(Debug)]
pub struct PcrValue {
    pub hash: TpmAlgId,
    pub index: u32,
    pub digest: Vec<u8>,
}

/// A register's digest as plain values.
pub struct PcrValueView {
    pub hash: TpmAlgId,
    pub index: u32,
    pub digest: Seq<u8>,
}

impl View for PcrValue {
    type V = PcrValueView;

    open spec fn view(&self) -> PcrValueView {
        PcrValueView { hash: self.hash, index: self.index, digest: self.digest@ }
    }
}

/// The views of a list of register digests.
pub open spec fn pcr_values_view(v: Seq<PcrValue>) -> Seq<PcrValueView> {
    v.map_values(|x: PcrValue| x@)
}

/// The views of a list of digests.
pub open spec fn digests_view(v: Seq<Vec<u8>>) -> Seq<Seq<u8>> {
    v.map_values(|x: Vec<u8>| x@)
}

/// `r` with `p` in front of its values.
pub open spec fn spec_prepend(p: Seq<PcrValueView>, r: Result<Seq<PcrValueView>, PcrError>) -> Result<Seq<PcrValueView>, PcrError> {
    match r {
        Ok(x) => Ok(p + x),
        Err(e) => Err(e),
    }
}

/// The digests that a read gives to the registers of the selections from
/// `i` on, the digests from `k` on being left: selection by selection, the
/// bank must be one of `banks`, and each selected register takes the next
/// digest in increasing order of register.
pub open spec fn spec_assign_from(
    banks: Seq<TpmAlgId>,
    sels: Seq<PcrSelectionView>,
    values: Seq<Seq<u8>>,
    i: nat,
    k: nat,
) -> Result<Seq<PcrValueView>, PcrError>
    decreases sels.len() - i,
{
    if i >= sels.len() {
        Ok(Seq::empty())
    } else {
        let sel = sels[i as int];
        let idx = spec_mask_pcrs(sel.mask, 0);
        if !banks.contains(sel.hash) {
            Err(PcrError::InvalidAlgorithm(sel.hash))
        } else if k + idx.len() > values.len() {
            Err(PcrError::PcrDigestMissing)
        } else {
            spec_prepend(
                Seq::new(idx.len(), |j: int| PcrValueView { hash: sel.hash, index: idx[j], digest: values[k + j] }),
                spec_assign_from(banks, sels, values, i + 1, k + idx.len()),
            )
        }
    }
}

proof fn lemma_prepend_prepend(a: Seq<PcrValueView>, b: Seq<PcrValueView>, r: Result<Seq<PcrValueView>, PcrError>)
    ensures
        spec_prepend(a, spec_prepend(b, r)) == spec_prepend(a + b, r),
{
    match r {
        Ok(x) => {
            assert(a + (b + x) =~= (a + b) + x);
        },
        Err(_) => {},
    }
}

/// Takes the digests of a PCR read: for each returned selection, in order,
/// the digests of its registers, in increasing order of register.
pub fn assign_pcr_values(banks: &[TpmAlgId], selection_out: &[TpmsPcrSelection], values: &[Vec<u8>]) -> (r: Result<
    Vec<PcrValue>,
    PcrError,
>)
    ensures
        match spec_assign_from(banks@, selections_view(selection_out@), digests_view(values@), 0, 0) {
            Ok(v) => r matches Ok(w) && pcr_values_view(w@) == v,
            Err(e) => r == Err::<Vec<PcrValue>, PcrError>(e),
        },
{
    let ghost sels = selections_view(selection_out@);
    let ghost vals = digests_view(values@);
    let mut out: Vec<PcrValue> = Vec::new();
    let mut i: usize = 0;
    let mut k: usize = 0;
    assert(spec_prepend(Seq::empty(), spec_assign_from(banks@, sels, vals, 0, 0)) == spec_assign_from(banks@, sels, vals, 0, 0)) by {
        match spec_assign_from(banks@, sels, vals, 0, 0) {
            Ok(x) => { assert(Seq::<PcrValueView>::empty() + x =~= x); },
            Err(_) => {},
        }
    }
    while i < selection_out.len()
        invariant
            i <= selection_out@.len(),
            k <= values@.len(),
            sels == selections_view(selection_out@),
            vals == digests_view(values@),
            spec_assign_from(banks@, sels, vals, 0, 0) == spec_prepend(
                pcr_values_view(out@),
                spec_assign_from(banks@, sels, vals, i as nat, k as nat),
            ),
        decreases selection_out@.len() - i,
    {
        let sel = &selection_out[i];
        assert(sels[i as int] == sel@);
        let mut found = false;
        let mut b: usize = 0;
        while b < banks.len()
            invariant
                b <= banks@.len(),
                found == exists|m: int| 0 <= m < b && banks@[m] == sel.hash,
            decreases banks@.len() - b,
        {
            if banks[b] == sel.hash {
                found = true;
            }
            b = b + 1;
        }
        if !found {
            assert(!banks@.contains(sel.hash));
            return Err(PcrError::InvalidAlgorithm(sel.hash));
        }
        let idx = sel.pcr_select.pcrs();
        if idx.len() > values.len() - k {
            return Err(PcrError::PcrDigestMissing);
        }
        let ghost before = pcr_values_view(out@);
        let ghost entries = Seq::new(
            idx@.len(),
            |j: int| PcrValueView { hash: sel.hash, index: idx@[j], digest: vals[k + j] },
        );
        let vlen = values.len();
        let mut j: usize = 0;
        while j < idx.len()
            invariant
                j <= idx@.len(),
                vlen == values@.len(),
                k + idx@.len() <= vlen,
                k + idx@.len() <= values@.len(),
                vals == digests_view(values@),
                entries == Seq::new(
                    idx@.len(),
                    |m: int| PcrValueView { hash: sel.hash, index: idx@[m], digest: vals[k + m] },
                ),
                pcr_values_view(out@) == before + entries.take(j as int),
            decreases idx@.len() - j,
        {
            let ghost prev = out@;
            let digest = slice_to_vec(values[k + j].as_slice());
            assert(vals[k + j] == values@[k + j]@);
            let v = PcrValue { hash: sel.hash, index: idx[j], digest };
            assert(v@ == entries[j as int]);
            out.push(v);
            assert(out@ == prev.push(v));
            assert(pcr_values_view(out@) =~= pcr_values_view(prev).push(v@));
            assert(entries.take(j + 1) =~= entries.take(j as int).push(entries[j as int]));
            assert(pcr_values_view(out@) =~= before + entries.take(j + 1));
            j = j + 1;
        }
        assert(entries.take(j as int) =~= entries);
        proof {
            lemma_prepend_prepend(
                before,
                entries,
                spec_assign_from(banks@, sels, vals, (i + 1) as nat, (k + idx@.len()) as nat),
            );
        }
        k = k + idx.len();
        i = i + 1;
    }
    proof {
        assert(pcr_values_view(out@) + Seq::<PcrValueView>::empty() =~= pcr_values_view(out@));
    }
    Ok(out)
}

/// Why the PCR banks of a TPM cannot be used.
#[derive(Debug, Clone, Copy, PartialEq, Eq, Structural)]
pub enum PcrBankError {
    /// The TPM reports no bank with registers.
    PcrBanksNotAvailable,
    /// Two banks select different registers.
    PcrBankSelectionMismatch,
}

/// No register is selected.
pub open spec fn spec_mask_is_empty(m: Seq<u8>) -> bool {
    forall|j: int| 0 <= j < m.len() ==> m[j] == 0
}

/// The banks with registers among `pcrs`, in order, and the selection they
/// share: banks without registers are skipped, the first bank with
/// registers sets the selection, and any later one must select the same.
pub open spec fn spec_bank_scan(pcrs: Seq<PcrSelectionView>, common: Option<Seq<u8>>) -> Result<
    (Seq<TpmAlgId>, Option<Seq<u8>>),
    PcrBankError,
>
    decreases pcrs.len(),
{
    if pcrs.len() == 0 {
        Ok((Seq::empty(), common))
    } else {
        let b = pcrs[0];
        if spec_mask_is_empty(b.mask) {
            spec_bank_scan(pcrs.drop_first(), common)
        } else if common matches Some(c) && c != b.mask {
            Err(PcrBankError::PcrBankSelectionMismatch)
        } else {
            let c2 = if common is None {
                Some(b.mask)
            } else {
                common
            };
            match spec_bank_scan(pcrs.drop_first(), c2) {
                Err(e) => Err(e),
                Ok((algs, c)) => Ok((seq![b.hash] + algs, c)),
            }
        }
    }
}

/// `s` is in increasing order of algorithm identifier.
pub open spec fn spec_algs_sorted(s: Seq<TpmAlgId>) -> bool {
    forall|i: int, j: int| 0 <= i < j < s.len() ==> s[i].spec_value() <= s[j].spec_value()
}

/// Inserts `x` into a sorted list, keeping it sorted.
fn insert_sorted(v: &mut Vec<TpmAlgId>, x: TpmAlgId)
    requires
        spec_algs_sorted(old(v)@),
    ensures
        spec_algs_sorted(final(v)@),
        final(v)@.to_multiset() == old(v)@.to_multiset().insert(x),
{
    broadcast use vstd::seq_lib::group_to_multiset_ensures;

    let mut i: usize = 0;
    let xv = x.value();
    while i < v.len() && v[i].value() <= xv
        invariant
            i <= v@.len(),
            v@ == old(v)@,
            forall|k: int| 0 <= k < i ==> v@[k].spec_value() <= xv,
        decreases v@.len() - i,
    {
        i = i + 1;
    }
    let ghost before = v@;
    v.insert(i, x);
    assert(v@ == before.insert(i as int, x));
    assert forall|a: int, b: int| 0 <= a < b < v@.len() implies v@[a].spec_value() <= v@[b].spec_value() by {
        if b < i {
        } else if b == i {
        } else if a < i {
            assert(v@[b] == before[b - 1]);
        } else if a == i {
            assert(v@[b] == before[b - 1]);
        } else {
            assert(v@[a] == before[a - 1]);
            assert(v@[b] == before[b - 1]);
        }
    }
}

/// Returns `v` in increasing order of algorithm identifier.
pub fn sort_algs(v: &Vec<TpmAlgId>) -> (r: Vec<TpmAlgId>)
    ensures
        spec_algs_sorted(r@),
        r@.to_multiset() == v@.to_multiset(),
{
    broadcast use vstd::seq_lib::group_to_multiset_ensures;

    let mut out: Vec<TpmAlgId> = Vec::new();
    let mut i: usize = 0;
    while i < v.len()
        invariant
            i <= v@.len(),
            spec_algs_sorted(out@),
            out@.to_multiset() == v@.take(i as int).to_multiset(),
        decreases v@.len() - i,
    {
        insert_sorted(&mut out, v[i]);
        assert(v@.take(i + 1) =~= v@.take(i as int).push(v@[i as int]));
        proof {
            vstd::seq_lib::to_multiset_build(v@.take(i as int), v@[i as int]);
        }
        i = i + 1;
    }
    assert(v@.take(i as int) =~= v@);
    out
}

/// The banks with registers of a TPM, in increasing order of algorithm
/// identifier, and the registers they all select.
pub open spec fn spec_pcr_bank_list(pcrs: Seq<PcrSelectionView>, algs: Seq<TpmAlgId>, select: Seq<u8>) -> bool {
    match spec_bank_scan(pcrs, None) {
        Ok((found, Some(c))) => spec_algs_sorted(algs) && algs.to_multiset() == found.to_multiset() && select == c,
        _ => false,
    }
}

fn masks_equal(a: &[u8], b: &[u8]) -> (r: bool)
    ensures
        r == (a@ == b@),
{
    if a.len() != b.len() {
        return false;
    }
    let mut i: usize = 0;
    while i < a.len()
        invariant
            i <= a@.len(),
            a@.len() == b@.len(),
            forall|k: int| 0 <= k < i ==> a@[k] == b@[k],
        decreases a@.len() - i,
    {
        if a[i] != b[i] {
            return false;
        }
        i = i + 1;
    }
    assert(a@ =~= b@);
    true
}

fn mask_is_empty(m: &[u8]) -> (r: bool)
    ensures
        r == spec_mask_is_empty(m@),
{
    let mut i: usize = 0;
    while i < m.len()
        invariant
            i <= m@.len(),
            forall|k: int| 0 <= k < i ==> m@[k] == 0,
        decreases m@.len() - i,
    {
        if m[i] != 0 {
            return false;
        }
        i = i + 1;
    }
    true
}

/// Chooses the PCR banks to read from what a TPM reports: the banks with
/// registers, in increasing order of algorithm identifier, and the
/// selection that they must all share.
pub fn pcr_bank_list(pcrs: &[TpmsPcrSelection]) -> (r: Result<(Vec<TpmAlgId>, TpmsPcrSelect), PcrBankError>)
    ensures
        pcrs@.len() == 0 ==> r == Err::<(Vec<TpmAlgId>, TpmsPcrSelect), PcrBankError>(
            PcrBankError::PcrBanksNotAvailable,
        ),
        pcrs@.len() > 0 ==> match spec_bank_scan(selections_view(pcrs@), None) {
            Err(e) => r == Err::<(Vec<TpmAlgId>, TpmsPcrSelect), PcrBankError>(e),
            Ok((_, None)) => r == Err::<(Vec<TpmAlgId>, TpmsPcrSelect), PcrBankError>(
                PcrBankError::PcrBanksNotAvailable,
            ),
            Ok((_, Some(_))) => r matches Ok((algs, select)) && spec_pcr_bank_list(
                selections_view(pcrs@),
                algs@,
                select@,
            ),
        },
{
    if pcrs.len() == 0 {
        return Err(PcrBankError::PcrBanksNotAvailable);
    }
    let ghost sels = selections_view(pcrs@);
    let mut common: Option<&TpmsPcrSelect> = None;
    let mut algs: Vec<TpmAlgId> = Vec::new();
    let mut i: usize = 0;
    proof {
        assert(sels.skip(0) =~= sels);
        match spec_bank_scan(sels, None) {
            Ok((rest, c)) => {
                assert(algs@ + rest =~= rest);
            },
            Err(_) => {},
        }
    }
    while i < pcrs.len()
        invariant
            i <= pcrs@.len(),
            sels == selections_view(pcrs@),
            spec_bank_scan(sels, None) == match spec_bank_scan(sels.skip(i as int), match common {
                Some(c) => Some(c@),
                None => None,
            }) {
                Err(e) => Err(e),
                Ok((rest, c)) => Ok((algs@ + rest, c)),
            },
        decreases pcrs@.len() - i,
    {
        let bank = &pcrs[i];
        let ghost rest = sels.skip(i as int);
        assert(rest[0] == bank@);
        assert(rest.drop_first() =~= sels.skip(i + 1));
        let mask = bank.pcr_select.as_slice();
        if !mask_is_empty(mask) {
            match common {
                Some(c) => {
                    if !masks_equal(c.as_slice(), mask) {
                        return Err(PcrBankError::PcrBankSelectionMismatch);
                    }
                },
                None => {
                    common = Some(&bank.pcr_select);
                },
            }
            let ghost before = algs@;
            algs.push(bank.hash);
            proof {
                assert forall|x: Seq<TpmAlgId>| #[trigger] (before + (seq![bank.hash] + x)) == algs@ + x by {
                    assert(before + (seq![bank.hash] + x) =~= algs@ + x);
                }
            }
        }
        i = i + 1;
    }
    assert(sels.skip(i as int) =~= Seq::<PcrSelectionView>::empty());
    assert(algs@ + Seq::<TpmAlgId>::empty() =~= algs@);
    match common {
        None => Err(PcrBankError::PcrBanksNotAvailable),
        Some(c) => {
            let sorted = sort_algs(&algs);
            Ok((sorted, c.copy()))
        },
    }
}

} // verus!
