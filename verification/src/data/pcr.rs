//! PCR selections: which registers of which bank.

use crate::constant::TPM_PCR_SELECT_MAX;
use crate::data::alg::TpmAlgId;
use crate::data::sym::{read_alg_at, spec_read_alg};
use crate::error::{TpmError, TpmResult};
use crate::frame::codec::{push_u16, spec_be16_bytes};
use vstd::prelude::*;
use vstd::slice::{slice_subrange, slice_to_vec};

verus! {

/// A PCR selection bitmap (`TPMS_PCR_SELECT`): bit `b` of byte `i` selects
/// register `8 * i + b`.
#[derive(Debug, PartialEq, Eq)]
pub struct TpmsPcrSelect {
    bytes: Vec<u8>,
}

impl View for TpmsPcrSelect {
    type V = Seq<u8>;

    closed spec fn view(&self) -> Seq<u8> {
        self.bytes@
    }
}

impl Clone for TpmsPcrSelect {
    fn clone(&self) -> (r: Self)
        ensures
            r@ == self@,
    {
        self.copy()
    }
}

impl Default for TpmsPcrSelect {
    /// The empty selection, as `new` makes it.
    fn default() -> (r: Self)
        ensures
            r@ == Seq::<u8>::empty(),
    {
        Self::new()
    }
}

impl TpmsPcrSelect {
    #[verifier::type_invariant]
    spec fn inv(self) -> bool {
        self.bytes@.len() <= TPM_PCR_SELECT_MAX
    }

    /// Creates a new, empty selection.
    pub fn new() -> (r: Self)
        ensures
            r@ == Seq::<u8>::empty(),
    {
        TpmsPcrSelect { bytes: Vec::new() }
    }

    /// Creates a selection from its bitmap bytes.
    pub fn try_from_slice(slice: &[u8]) -> (r: TpmResult<Self>)
        ensures
            slice@.len() > TPM_PCR_SELECT_MAX ==> r == Err::<Self, TpmError>(
                TpmError::TooManyItems { offset: 0, limit: TPM_PCR_SELECT_MAX, actual: slice@.len() as usize },
            ),
            slice@.len() <= TPM_PCR_SELECT_MAX ==> (r matches Ok(p) && p@ == slice@),
    {
        if slice.len() > TPM_PCR_SELECT_MAX {
            return Err(TpmError::TooManyItems { offset: 0, limit: TPM_PCR_SELECT_MAX, actual: slice.len() });
        }
        Ok(TpmsPcrSelect { bytes: slice_to_vec(slice) })
    }

    /// Returns the bitmap bytes.
    pub fn as_slice(&self) -> (r: &[u8])
        ensures
            r@ == self@,
    {
        self.bytes.as_slice()
    }

    /// Returns a copy of the selection.
    pub fn copy(&self) -> (r: Self)
        ensures
            r@ == self@,
    {
        proof {
            use_type_invariant(self);
        }
        TpmsPcrSelect { bytes: slice_to_vec(self.bytes.as_slice()) }
    }

    /// Returns the number of wire bytes: the size byte and the bitmap.
    pub fn len(&self) -> (r: usize)
        ensures
            r == 1 + self@.len(),
    {
        proof {
            use_type_invariant(self);
        }
        1 + self.bytes.len()
    }

    /// Returns the registers that the selection selects, in increasing order.
    pub fn pcrs(&self) -> (r: Vec<u32>)
        ensures
            r@ == spec_mask_pcrs(self@, 0),
    {
        proof {
            use_type_invariant(self);
        }
        selected_pcrs(self.bytes.as_slice())
    }

    /// Whether no bitmap bytes are held.
    pub fn is_empty(&self) -> (r: bool)
        ensures
            r == (self@.len() == 0),
    {
        self.bytes.len() == 0
    }

    /// Appends the wire bytes: the size byte, then the bitmap.
    pub fn marshal(&self, buf: &mut Vec<u8>)
        ensures
            final(buf)@ == old(buf)@ + seq![self@.len() as u8] + self@,
    {
        proof {
            use_type_invariant(self);
        }
        buf.push(self.bytes.len() as u8);
        let mut i: usize = 0;
        while i < self.bytes.len()
            invariant
                i <= self.bytes@.len(),
                buf@ == old(buf)@ + seq![self.bytes@.len() as u8] + self.bytes@.subrange(0, i as int),
            decreases self.bytes@.len() - i,
        {
            buf.push(self.bytes[i]);
            i = i + 1;
            assert(buf@ =~= old(buf)@ + seq![self.bytes@.len() as u8] + self.bytes@.subrange(0, i as int));
        }
        assert(self.bytes@.subrange(0, i as int) =~= self.bytes@);
    }
}

/// What reading a selection from the front of `s` gives: the bitmap and the
/// position after it, or why there is none.
pub open spec fn spec_pcr_select_prefix(s: Seq<u8>) -> TpmResult<(Seq<u8>, int)> {
    if s.len() < 1 {
        Err(TpmError::UnexpectedEnd { offset: 0, needed: 1, available: 0 })
    } else {
        let size = s[0] as int;
        if size > TPM_PCR_SELECT_MAX {
            Err(TpmError::TooManyItems { offset: 0, limit: TPM_PCR_SELECT_MAX, actual: size as usize })
        } else if s.len() - 1 < size {
            Err(TpmError::UnexpectedEnd { offset: 1, needed: size as usize, available: (s.len() - 1) as usize })
        } else {
            Ok((s.subrange(1, 1 + size), 1 + size))
        }
    }
}

/// Reads a selection's bitmap from the front of `buf` and returns it with
/// the bytes after it.
pub fn cast_pcr_select_prefix(buf: &[u8]) -> (r: TpmResult<(&[u8], &[u8])>)
    ensures
        match spec_pcr_select_prefix(buf@) {
            Ok((bits, next)) => r matches Ok((b, rest)) && b@ == bits && rest@ == buf@.subrange(next, buf@.len() as int),
            Err(e) => r == Err::<(&[u8], &[u8]), TpmError>(e),
        },
{
    if buf.len() < 1 {
        return Err(TpmError::UnexpectedEnd { offset: 0, needed: 1, available: 0 });
    }
    let size = buf[0] as usize;
    if size > TPM_PCR_SELECT_MAX {
        return Err(TpmError::TooManyItems { offset: 0, limit: TPM_PCR_SELECT_MAX, actual: size });
    }
    if buf.len() - 1 < size {
        return Err(TpmError::UnexpectedEnd { offset: 1, needed: size, available: buf.len() - 1 });
    }
    Ok((slice_subrange(buf, 1, 1 + size), slice_subrange(buf, 1 + size, buf.len())))
}

/// Reading back the wire bytes of a selection, followed by anything, gives
/// its bitmap and stops after it.
pub proof fn lemma_pcr_select_roundtrip(bits: Seq<u8>, rest: Seq<u8>)
    requires
        bits.len() <= TPM_PCR_SELECT_MAX,
    ensures
        spec_pcr_select_prefix(seq![bits.len() as u8] + bits + rest) == Ok::<(Seq<u8>, int), TpmError>(
            (bits, 1 + bits.len() as int),
        ),
{
    let s = seq![bits.len() as u8] + bits + rest;
    assert(s[0] == bits.len() as u8);
    assert(s.subrange(1, 1 + bits.len() as int) =~= bits);
}

/// A PCR selection of one bank (`TPMS_PCR_SELECTION`).
#[derive(Debug, Clone, PartialEq, Eq)]
pub struct TpmsPcrSelection {
    pub hash: TpmAlgId,
    pub pcr_select: TpmsPcrSelect,
}

/// A PCR selection of one bank, as plain values.
pub struct PcrSelectionView {
    pub hash: TpmAlgId,
    pub mask: Seq<u8>,
}

impl View for TpmsPcrSelection {
    type V = PcrSelectionView;

    open spec fn view(&self) -> PcrSelectionView {
        PcrSelectionView { hash: self.hash, mask: self.pcr_select@ }
    }
}

impl TpmsPcrSelection {
    /// The wire bytes: the bank's algorithm, the size byte and the bitmap.
    pub open spec fn spec_bytes(&self) -> Seq<u8> {
        spec_be16_bytes(self.hash.spec_value()) + seq![self.pcr_select@.len() as u8] + self.pcr_select@
    }

    /// Returns the number of wire bytes: at most seven.
    pub fn len(&self) -> (r: usize)
        ensures
            r == self.spec_bytes().len(),
            r <= 7,
    {
        proof {
            use_type_invariant(&self.pcr_select);
        }
        2 + self.pcr_select.len()
    }

    /// Appends the wire bytes.
    pub fn marshal(&self, buf: &mut Vec<u8>)
        ensures
            final(buf)@ == old(buf)@ + self.spec_bytes(),
    {
        push_u16(buf, self.hash.value());
        self.pcr_select.marshal(buf);
        assert(buf@ =~= old(buf)@ + self.spec_bytes());
    }
}

/// What reading a selection of one bank from the front of `s` gives: the
/// bank, the bitmap and the position after them.
pub open spec fn spec_pcr_selection_prefix(s: Seq<u8>) -> TpmResult<(TpmAlgId, Seq<u8>, int)> {
    match spec_read_alg(s, 0) {
        Err(e) => Err(e),
        Ok((hash, p)) => match spec_pcr_select_prefix(s.subrange(p, s.len() as int)) {
            Err(e) => Err(e),
            Ok((bits, q)) => Ok((hash, bits, p + q)),
        },
    }
}

/// Reads a selection of one bank from the front of `buf` and returns its
/// bank and bitmap with the bytes after them.
pub fn cast_pcr_selection_prefix(buf: &[u8]) -> (r: TpmResult<(TpmAlgId, &[u8], &[u8])>)
    ensures
        match spec_pcr_selection_prefix(buf@) {
            Ok((hash, bits, next)) => r matches Ok((h, b, rest)) && h == hash && b@ == bits
                && rest@ == buf@.subrange(next, buf@.len() as int),
            Err(e) => r == Err::<(TpmAlgId, &[u8], &[u8]), TpmError>(e),
        },
{
    let (hash, p) = read_alg_at(buf, 0)?;
    let tail = slice_subrange(buf, p, buf.len());
    let (bits, rest) = cast_pcr_select_prefix(tail)?;
    proof {
        let ghost t = buf@.subrange(p as int, buf@.len() as int);
        if let Ok((_, q)) = spec_pcr_select_prefix(t) {
            assert(t.subrange(q, t.len() as int) =~= buf@.subrange(p + q, buf@.len() as int));
        }
    }
    Ok((hash, bits, rest))
}

/// The views of a list of selections.
pub open spec fn selections_view(s: Seq<TpmsPcrSelection>) -> Seq<PcrSelectionView> {
    s.map_values(|x: TpmsPcrSelection| x@)
}

/// The registers that bits `b..8` of `byte` select, `base` being the register
/// of bit 0, in increasing order.
pub open spec fn spec_byte_pcrs(byte: u8, b: nat, base: nat) -> Seq<u32>
    decreases 8 - b,
{
    if b >= 8 {
        Seq::empty()
    } else {
        (if (byte >> (b as u8)) & 1 == 1 {
            seq![(base + b) as u32]
        } else {
            Seq::empty()
        }) + spec_byte_pcrs(byte, b + 1, base)
    }
}

/// The registers that the bytes `i..` of `mask` select, in increasing order.
pub open spec fn spec_mask_pcrs(mask: Seq<u8>, i: nat) -> Seq<u32>
    decreases mask.len() - i,
{
    if i >= mask.len() {
        Seq::empty()
    } else {
        spec_byte_pcrs(mask[i as int], 0, 8 * i) + spec_mask_pcrs(mask, i + 1)
    }
}

/// Returns the registers that a bitmap selects, in increasing order.
pub(crate) fn selected_pcrs(mask: &[u8]) -> (r: Vec<u32>)
    requires
        mask@.len() <= TPM_PCR_SELECT_MAX,
    ensures
        r@ == spec_mask_pcrs(mask@, 0),
{
    let mut out: Vec<u32> = Vec::new();
    let mut i: usize = 0;
    while i < mask.len()
        invariant
            i <= mask@.len() <= TPM_PCR_SELECT_MAX,
            out@ + spec_mask_pcrs(mask@, i as nat) == spec_mask_pcrs(mask@, 0),
        decreases mask@.len() - i,
    {
        let byte = mask[i];
        let mut b: u8 = 0;
        let ghost before = out@;
        assert(spec_mask_pcrs(mask@, i as nat) == spec_byte_pcrs(byte, 0, 8 * i as nat) + spec_mask_pcrs(mask@, (i + 1) as nat));
        while b < 8
            invariant
                b <= 8,
                i < mask@.len() <= TPM_PCR_SELECT_MAX,
                byte == mask@[i as int],
                out@ + spec_byte_pcrs(byte, b as nat, 8 * i as nat) == before + spec_byte_pcrs(byte, 0, 8 * i as nat),
            decreases 8 - b,
        {
            let ghost prev = out@;
            if (byte >> b) & 1 == 1 {
                out.push((8 * i + b as usize) as u32);
            }
            assert(out@ + spec_byte_pcrs(byte, (b + 1) as nat, 8 * i as nat) =~= prev + spec_byte_pcrs(byte, b as nat, 8 * i as nat));
            b = b + 1;
        }
        assert(out@ =~= before + spec_byte_pcrs(byte, 0, 8 * i as nat));
        assert(out@ + spec_mask_pcrs(mask@, (i + 1) as nat) =~= before + spec_mask_pcrs(mask@, i as nat));
        i = i + 1;
    }
    assert(out@ + Seq::<u32>::empty() =~= out@);
    out
}

/// Whether no selection selects any register.
pub fn is_selection_empty(selection: &[TpmsPcrSelection]) -> (r: bool)
    ensures
        r == forall|i: int, j: int|
            0 <= i < selection@.len() && 0 <= j < selection@[i].pcr_select@.len() ==> #[trigger] selection@[i].pcr_select@[j] == 0,
{
    let mut i: usize = 0;
    while i < selection.len()
        invariant
            i <= selection@.len(),
            forall|k: int, j: int|
                0 <= k < i && 0 <= j < selection@[k].pcr_select@.len() ==> #[trigger] selection@[k].pcr_select@[j] == 0,
        decreases selection@.len() - i,
    {
        let bytes = selection[i].pcr_select.as_slice();
        let mut j: usize = 0;
        while j < bytes.len()
            invariant
                j <= bytes@.len(),
                i < selection@.len(),
                bytes@ == selection@[i as int].pcr_select@,
                forall|m: int| 0 <= m < j ==> bytes@[m] == 0,
            decreases bytes@.len() - j,
        {
            if bytes[j] != 0 {
                return false;
            }
            j = j + 1;
        }
        i = i + 1;
    }
    true
}

/// The index of the first selection of `read` for the bank `hash`.
pub open spec fn spec_find_bank(read: Seq<PcrSelectionView>, hash: TpmAlgId) -> Option<int>
    decreases read.len(),
{
    if read.len() == 0 {
        None
    } else if read[0].hash == hash {
        Some(0)
    } else {
        match spec_find_bank(read.drop_first(), hash) {
            None => None,
            Some(k) => Some(k + 1),
        }
    }
}

/// `mask` with the registers of `read_mask` cleared.
pub open spec fn spec_clear_mask(mask: Seq<u8>, read_mask: Seq<u8>) -> Seq<u8> {
    Seq::new(mask.len(), |i: int| if i < read_mask.len() { mask[i] & !read_mask[i] } else { mask[i] })
}

/// What is left to read of a selection after `read` was read: the registers
/// of the first selection of `read` for the same bank are cleared.
pub open spec fn spec_remaining(target: PcrSelectionView, read: Seq<PcrSelectionView>) -> Seq<u8> {
    match spec_find_bank(read, target.hash) {
        None => target.mask,
        Some(k) => spec_clear_mask(target.mask, read[k].mask),
    }
}

fn find_bank(read: &[TpmsPcrSelection], hash: TpmAlgId) -> (r: Option<usize>)
    ensures
        r is None ==> spec_find_bank(selections_view(read@), hash) is None,
        r matches Some(k) ==> k < read@.len() && read@[k as int].hash == hash
            && spec_find_bank(selections_view(read@), hash) == Some(k as int),
{
    let mut i: usize = 0;
    while i < read.len()
        invariant
            i <= read@.len(),
            forall|k: int| 0 <= k < i ==> read@[k].hash != hash,
        decreases read@.len() - i,
    {
        if read[i].hash == hash {
            proof {
                lemma_find_bank_at(selections_view(read@), hash, i as int);
            }
            return Some(i);
        }
        i = i + 1;
    }
    proof {
        lemma_find_bank_at(selections_view(read@), hash, read@.len() as int);
    }
    None
}

proof fn lemma_find_bank_at(read: Seq<PcrSelectionView>, hash: TpmAlgId, i: int)
    requires
        0 <= i <= read.len(),
        forall|k: int| 0 <= k < i ==> (#[trigger] read[k]).hash != hash,
    ensures
        i < read.len() && read[i].hash == hash ==> spec_find_bank(read, hash) == Some(i),
        i == read.len() ==> spec_find_bank(read, hash) is None,
    decreases i,
{
    if i > 0 {
        assert forall|k: int| 0 <= k < i - 1 implies (#[trigger] read.drop_first()[k]).hash != hash by {
            assert(read.drop_first()[k] == read[k + 1]);
        }
        lemma_find_bank_at(read.drop_first(), hash, i - 1);
    }
}

/// Replaces each remaining selection by what is left to read of it after
/// `read` was read.
pub fn update_remaining_selection(remaining: &Vec<TpmsPcrSelection>, read: &[TpmsPcrSelection]) -> (r: Vec<
    TpmsPcrSelection,
>)
    ensures
        r@.len() == remaining@.len(),
        forall|i: int|
            0 <= i < r@.len() ==> (#[trigger] r@[i]).hash == remaining@[i].hash && r@[i].pcr_select@
                == spec_remaining(remaining@[i]@, selections_view(read@)),
{
    let mut out: Vec<TpmsPcrSelection> = Vec::new();
    let mut i: usize = 0;
    while i < remaining.len()
        invariant
            i <= remaining@.len(),
            out@.len() == i,
            forall|k: int|
                0 <= k < i ==> (#[trigger] out@[k]).hash == remaining@[k].hash && out@[k].pcr_select@
                    == spec_remaining(remaining@[k]@, selections_view(read@)),
        decreases remaining@.len() - i,
    {
        let target = &remaining[i];
        let mask = target.pcr_select.as_slice();
        proof {
            use_type_invariant(&target.pcr_select);
        }
        let mut bytes = slice_to_vec(mask);
        let found = find_bank(read, target.hash);
        let ghost view = selections_view(read@);
        let ghost expected = spec_remaining(remaining@[i as int]@, view);
        assert(remaining@[i as int]@.hash == target.hash);
        assert(remaining@[i as int]@.mask == mask@);
        match found {
            None => {
                assert(spec_find_bank(view, target.hash) is None);
                assert(bytes@ =~= expected);
            },
            Some(k) => {
                assert(view[k as int] == read@[k as int]@);
                let read_mask = read[k].pcr_select.as_slice();
                let mut j: usize = 0;
                while j < read_mask.len()
                    invariant
                        j <= read_mask@.len(),
                        bytes@.len() == mask@.len(),
                        forall|m: int|
                            0 <= m < bytes@.len() ==> #[trigger] bytes@[m] == if m < j && m < read_mask@.len() {
                                mask@[m] & !read_mask@[m]
                            } else {
                                mask@[m]
                            },
                    decreases read_mask@.len() - j,
                {
                    if j < bytes.len() {
                        let v = bytes[j] & !read_mask[j];
                        bytes.set(j, v);
                    }
                    j = j + 1;
                }
                assert(bytes@ =~= spec_clear_mask(mask@, view[k as int].mask));
                assert(spec_find_bank(view, target.hash) == Some(k as int));
                assert(bytes@ =~= expected);
            },
        }
        let select = match TpmsPcrSelect::try_from_slice(bytes.as_slice()) {
            Ok(p) => p,
            Err(_) => TpmsPcrSelect::new(),
        };
        out.push(TpmsPcrSelection { hash: target.hash, pcr_select: select });
        i = i + 1;
    }
    out
}

} // verus!
