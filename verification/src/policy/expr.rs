//! The expressions of the policy language, and the list of policy commands
//! that an expression stands for: building the list from an expression, and
//! rebuilding the expression from the list.

use crate::data::pcr::{selections_view, PcrSelectionView, TpmsPcrSelection};
use crate::frame::auth::{auth_command_views, TpmsAuthCommand};
use crate::handle::Handle;
use crate::constant::{MAX_DIGEST_SIZE, MAX_PCR_SELECTIONS, TPM_PCR_SELECT_MAX};
use crate::data::alg::TpmAlgId;
use crate::policy::command_list::{
    copy_selections, lemma_shapes_push, spec_password_hmac, spec_secret_name, spec_shape, spec_shapes,
    to_command_list_walk_pcr, to_command_list_walk_secret, PolicyCommand, PolicyCommandError,
    ShapeItem, TPM_RS_PW,
};
use crate::crypto::spec_crypto_hash_size;
use crate::policy::software::SoftwarePolicySession;
use crate::policy::PolicyError;
use vstd::prelude::*;
use vstd::slice::slice_to_vec;

verus! {

/// An expression of the policy language: a password, a PCR policy (its
/// selections and, once known, the digest of the selected PCRs), a secret
/// policy (the authorizing handle and an optional password), a conjunction,
/// a disjunction, or a handle.
#[derive(Debug, PartialEq, Eq)]
pub enum PolicyExpr {
    Password(Vec<u8>),
    Pcr { selections: Vec<TpmsPcrSelection>, digest: Option<Vec<u8>> },
    Secret { auth_handle: Box<PolicyExpr>, password: Option<Box<PolicyExpr>> },
    And(Vec<PolicyExpr>),
    Or(Vec<PolicyExpr>),
    Handle(Handle),
}

/// A policy expression as plain values.
pub enum ExprView {
    Password(Seq<u8>),
    Pcr { selections: Seq<PcrSelectionView>, digest: Option<Seq<u8>> },
    Secret { auth_handle: Box<ExprView>, password: Option<Box<ExprView>> },
    And(Seq<ExprView>),
    Or(Seq<ExprView>),
    Handle { mask: u32, value: u32 },
}

/// The plain value of an expression.
pub open spec fn spec_expr_view(e: PolicyExpr) -> ExprView
    decreases e,
{
    match e {
        PolicyExpr::Password(v) => ExprView::Password(v@),
        PolicyExpr::Pcr { selections, digest } => ExprView::Pcr {
            selections: selections_view(selections@),
            digest: match digest {
                Some(d) => Some(d@),
                None => None,
            },
        },
        PolicyExpr::Secret { auth_handle, password } => ExprView::Secret {
            auth_handle: Box::new(spec_expr_view(*auth_handle)),
            password: match password {
                Some(p) => Some(Box::new(spec_expr_view(*p))),
                None => None,
            },
        },
        PolicyExpr::And(v) => ExprView::And(
            Seq::new(
                v@.len(),
                |i: int|
                    if 0 <= i < v@.len() {
                        spec_expr_view(v@[i])
                    } else {
                        ExprView::Password(Seq::empty())
                    },
            ),
        ),
        PolicyExpr::Or(v) => ExprView::Or(
            Seq::new(
                v@.len(),
                |i: int|
                    if 0 <= i < v@.len() {
                        spec_expr_view(v@[i])
                    } else {
                        ExprView::Password(Seq::empty())
                    },
            ),
        ),
        PolicyExpr::Handle(h) => ExprView::Handle { mask: h.mask_bits(), value: h.value_bits() },
    }
}

impl View for PolicyExpr {
    type V = ExprView;

    open spec fn view(&self) -> ExprView {
        spec_expr_view(*self)
    }
}

/// The plain values of a list of expressions.
pub open spec fn spec_exprs_view(s: Seq<PolicyExpr>) -> Seq<ExprView> {
    Seq::new(
        s.len(),
        |i: int|
            if 0 <= i < s.len() {
                spec_expr_view(s[i])
            } else {
                ExprView::Password(Seq::empty())
            },
    )
}

/// The plain values of a stack of expression lists.
pub open spec fn spec_stack_view(s: Seq<Vec<PolicyExpr>>) -> Seq<Seq<ExprView>> {
    Seq::new(s.len(), |i: int| spec_exprs_view(s[i]@))
}

pub proof fn lemma_and_or_view(v: Vec<PolicyExpr>)
    ensures
        PolicyExpr::And(v)@ == ExprView::And(spec_exprs_view(v@)),
        PolicyExpr::Or(v)@ == ExprView::Or(spec_exprs_view(v@)),
{
    let d1 = spec_expr_view(PolicyExpr::And(v));
    let d2 = spec_expr_view(PolicyExpr::Or(v));
    assert(d1->And_0 =~= spec_exprs_view(v@));
    assert(d2->Or_0 =~= spec_exprs_view(v@));
}

proof fn lemma_exprs_view_drop_last(s: Seq<PolicyExpr>)
    requires
        s.len() > 0,
    ensures
        spec_exprs_view(s.drop_last()) == spec_exprs_view(s).drop_last(),
{
    assert(spec_exprs_view(s.drop_last()) =~= spec_exprs_view(s).drop_last());
}

proof fn lemma_stack_view_push(s: Seq<Vec<PolicyExpr>>, v: Vec<PolicyExpr>)
    ensures
        spec_stack_view(s.push(v)) == spec_stack_view(s).push(spec_exprs_view(v@)),
{
    assert(spec_stack_view(s.push(v)) =~= spec_stack_view(s).push(spec_exprs_view(v@)));
}

proof fn lemma_stack_view_drop_last(s: Seq<Vec<PolicyExpr>>)
    requires
        s.len() > 0,
    ensures
        spec_stack_view(s.drop_last()) == spec_stack_view(s).drop_last(),
        spec_stack_view(s).last() == spec_exprs_view(s.last()@),
{
    assert(spec_stack_view(s.drop_last()) =~= spec_stack_view(s).drop_last());
}

proof fn lemma_exprs_view_empty()
    ensures
        spec_exprs_view(Seq::<PolicyExpr>::empty()) == Seq::<ExprView>::empty(),
{
    assert(spec_exprs_view(Seq::<PolicyExpr>::empty()) =~= Seq::<ExprView>::empty());
}

proof fn lemma_exprs_view_push(s: Seq<PolicyExpr>, e: PolicyExpr)
    ensures
        spec_exprs_view(s.push(e)) == spec_exprs_view(s).push(e@),
{
    assert(spec_exprs_view(s.push(e)) =~= spec_exprs_view(s).push(e@));
}

// ---------------------------------------------------------------------------
// Rebuilding an expression from a command list.
// ---------------------------------------------------------------------------

/// A branch of commands as one expression: a single expression stands for
/// itself, any other number of them for their conjunction.
pub open spec fn spec_build_and_branch(b: Seq<ExprView>) -> ExprView {
    if b.len() == 1 {
        b[0]
    } else {
        ExprView::And(b)
    }
}

/// Adds an expression to the branch on top of the stack.
pub open spec fn spec_push_top(st: Seq<Seq<ExprView>>, e: ExprView) -> Seq<Seq<ExprView>> {
    st.update(st.len() - 1, st.last().push(e))
}

/// One command applied to the stack of open branches: a restart opens a new
/// branch; a PCR or secret command adds its expression to the top branch (a
/// secret's password is the HMAC of its password session, if any); an OR
/// of `n` branches closes the top `n` branches and adds their disjunction
/// to the branch below them. An empty stack, or too few branches, is
/// `OperationFailed`; another command is `InvalidCc`.
pub open spec fn spec_from_step(st: Seq<Seq<ExprView>>, s: ShapeItem) -> Result<
    Seq<Seq<ExprView>>,
    PolicyCommandError,
> {
    if st.len() == 0 {
        Err(PolicyCommandError::OperationFailed)
    } else {
        match s {
            ShapeItem::Restart => Ok(st.push(Seq::empty())),
            ShapeItem::Pcr { pcr_digest, pcrs } => Ok(
                spec_push_top(st, ExprView::Pcr { selections: pcrs, digest: Some(pcr_digest) }),
            ),
            ShapeItem::Secret { auth_handle, password } => Ok(
                spec_push_top(
                    st,
                    ExprView::Secret {
                        auth_handle: Box::new(ExprView::Handle { mask: 0xFFFF_FFFF, value: auth_handle }),
                        password: match password {
                            Some(p) => Some(Box::new(ExprView::Password(p))),
                            None => None,
                        },
                    },
                ),
            ),
            ShapeItem::Or(n) => if st.len() <= n {
                Err(PolicyCommandError::OperationFailed)
            } else {
                let k = st.len() - n;
                Ok(
                    spec_push_top(
                        st.take(k),
                        ExprView::Or(Seq::new(n, |i: int| spec_build_and_branch(st[k + i]))),
                    ),
                )
            },
            ShapeItem::Other(cc) => Err(PolicyCommandError::InvalidCc(cc)),
        }
    }
}

/// The commands applied one after another.
pub open spec fn spec_from_run(st: Seq<Seq<ExprView>>, shapes: Seq<ShapeItem>) -> Result<
    Seq<Seq<ExprView>>,
    PolicyCommandError,
>
    decreases shapes.len(),
{
    if shapes.len() == 0 {
        Ok(st)
    } else {
        match spec_from_step(st, shapes[0]) {
            Err(e) => Err(e),
            Ok(s2) => spec_from_run(s2, shapes.drop_first()),
        }
    }
}

/// The expression a command list stands for: the commands applied to one
/// empty branch must leave exactly one branch (else `OperationFailed`),
/// which is the expression.
pub open spec fn spec_from_shapes(shapes: Seq<ShapeItem>) -> Result<ExprView, PolicyCommandError> {
    match spec_from_run(seq![Seq::empty()], shapes) {
        Err(e) => Err(e),
        Ok(st) => if st.len() != 1 {
            Err(PolicyCommandError::OperationFailed)
        } else {
            Ok(spec_build_and_branch(st[0]))
        },
    }
}

/// The expression a command list stands for.
pub open spec fn spec_from_command_list(list: Seq<(PolicyCommand, Vec<TpmsAuthCommand>)>) -> Result<
    ExprView,
    PolicyCommandError,
> {
    spec_from_shapes(spec_shapes(list))
}

/// Applying the commands of `a` and then one more.
pub proof fn lemma_from_run_push(st: Seq<Seq<ExprView>>, a: Seq<ShapeItem>, x: ShapeItem)
    ensures
        spec_from_run(st, a.push(x)) == match spec_from_run(st, a) {
            Err(e) => Err(e),
            Ok(s2) => spec_from_step(s2, x),
        },
    decreases a.len(),
{
    if a.len() == 0 {
        assert(a.push(x).drop_first() =~= Seq::<ShapeItem>::empty());
        assert(a.push(x)[0] == x);
        match spec_from_step(st, x) {
            Err(e) => {},
            Ok(s2) => {
                assert(spec_from_run(s2, Seq::<ShapeItem>::empty()) == Ok::<Seq<Seq<ExprView>>, PolicyCommandError>(s2));
            },
        }
    } else {
        assert(a.push(x).drop_first() =~= a.drop_first().push(x));
        assert(a.push(x)[0] == a[0]);
        match spec_from_step(st, a[0]) {
            Err(e) => {},
            Ok(s2) => {
                lemma_from_run_push(s2, a.drop_first(), x);
            },
        }
    }
}

/// Applying the commands of `a` and then those of `b`.
pub proof fn lemma_from_run_concat(st: Seq<Seq<ExprView>>, a: Seq<ShapeItem>, b: Seq<ShapeItem>)
    ensures
        spec_from_run(st, a + b) == match spec_from_run(st, a) {
            Err(e) => Err(e),
            Ok(s2) => spec_from_run(s2, b),
        },
    decreases a.len(),
{
    if a.len() == 0 {
        assert(a + b =~= b);
    } else {
        assert((a + b).drop_first() =~= a.drop_first() + b);
        assert((a + b)[0] == a[0]);
        match spec_from_step(st, a[0]) {
            Err(e) => {},
            Ok(s2) => {
                lemma_from_run_concat(s2, a.drop_first(), b);
            },
        }
    }
}

/// Returns the HMAC of the first password session of a list of
/// authorizations.
fn password_hmac(auths: &Vec<TpmsAuthCommand>) -> (r: Option<Vec<u8>>)
    ensures
        match spec_password_hmac(auth_command_views(auths@)) {
            Some(p) => r matches Some(v) && v@ == p,
            None => r is None,
        },
{
    let mut i: usize = 0;
    assert(auth_command_views(auths@).skip(0) =~= auth_command_views(auths@));
    while i < auths.len()
        invariant
            i <= auths@.len(),
            spec_password_hmac(auth_command_views(auths@)) == spec_password_hmac(
                auth_command_views(auths@).skip(i as int),
            ),
        decreases auths@.len() - i,
    {
        let ghost v = auth_command_views(auths@);
        assert(v.skip(i as int).drop_first() =~= v.skip(i + 1));
        assert(v.skip(i as int)[0] == auths@[i as int]@);
        if auths[i].session_handle == TPM_RS_PW {
            return Some(slice_to_vec(auths[i].hmac.as_slice()));
        }
        i = i + 1;
    }
    None
}

/// A branch of expressions as one expression: a single expression stands for
/// itself, any other number of them for their conjunction.
pub fn build_and_branch(b: Vec<PolicyExpr>) -> (r: PolicyExpr)
    ensures
        r@ == spec_build_and_branch(spec_exprs_view(b@)),
{
    let mut b = b;
    if b.len() == 1 {
        let r = b.pop().unwrap();
        r
    } else {
        proof {
            lemma_and_or_view(b);
        }
        PolicyExpr::And(b)
    }
}

fn push_top(stack: &mut Vec<Vec<PolicyExpr>>, e: PolicyExpr)
    requires
        old(stack)@.len() > 0,
    ensures
        spec_stack_view(final(stack)@) == spec_push_top(spec_stack_view(old(stack)@), e@),
{
    let ghost st = spec_stack_view(stack@);
    let ghost e_view = e@;
    proof {
        lemma_stack_view_drop_last(stack@);
    }
    let mut top = stack.pop().unwrap();
    proof {
        lemma_exprs_view_push(top@, e);
    }
    let ghost rest = stack@;
    top.push(e);
    let ghost top_v = top@;
    stack.push(top);
    proof {
        lemma_stack_view_push(rest, top);
    }
    assert(spec_stack_view(stack@) =~= spec_push_top(st, e_view));
}

/// Applies one command of a command list to the stack of open branches.
fn from_step(stack: &mut Vec<Vec<PolicyExpr>>, c: &PolicyCommand, auths: &Vec<TpmsAuthCommand>) -> (r:
    Result<(), PolicyCommandError>)
    ensures
        match spec_from_step(spec_stack_view(old(stack)@), spec_shape(*c, auths@)) {
            Ok(s) => r is Ok && spec_stack_view(final(stack)@) == s,
            Err(e) => r matches Err(y) && y == e,
        },
{
    let ghost st = spec_stack_view(stack@);
    if stack.len() == 0 {
        return Err(PolicyCommandError::OperationFailed);
    }
    match c {
        PolicyCommand::Restart => {
            let ghost before = stack@;
            let empty: Vec<PolicyExpr> = Vec::new();
            proof {
                lemma_stack_view_push(before, empty);
                lemma_exprs_view_empty();
            }
            stack.push(empty);
            Ok(())
        },
        PolicyCommand::Pcr { pcr_digest, pcrs } => {
            let e = PolicyExpr::Pcr {
                selections: copy_selections(pcrs),
                digest: Some(slice_to_vec(pcr_digest.as_slice())),
            };
            assert(e@ == (ExprView::Pcr { selections: selections_view(pcrs@), digest: Some(pcr_digest@) }));
            push_top(stack, e);
            Ok(())
        },
        PolicyCommand::Secret { auth_handle } => {
            let ghost pw_view = match spec_password_hmac(auth_command_views(auths@)) {
                Some(p) => Some(Box::new(ExprView::Password(p))),
                None => None,
            };
            let password = match password_hmac(auths) {
                Some(p) => {
                    let pe = PolicyExpr::Password(p);
                    assert(pe@ == ExprView::Password(p@));
                    Some(Box::new(pe))
                },
                None => None,
            };
            assert(match password {
                Some(b) => Some(Box::new(spec_expr_view(*b))),
                None => None,
            } == pw_view);
            let he = PolicyExpr::Handle(Handle::new(*auth_handle));
            assert(he@ == (ExprView::Handle { mask: 0xFFFF_FFFF, value: *auth_handle }));
            let e = PolicyExpr::Secret { auth_handle: Box::new(he), password };
            assert(e@ == (ExprView::Secret {
                auth_handle: Box::new(ExprView::Handle { mask: 0xFFFF_FFFF, value: *auth_handle }),
                password: match spec_password_hmac(auth_command_views(auths@)) {
                    Some(p) => Some(Box::new(ExprView::Password(p))),
                    None => None,
                },
            }));
            push_top(stack, e);
            Ok(())
        },
        PolicyCommand::Or { p_hash_list } => {
            let n = p_hash_list.len();
            if stack.len() <= n {
                return Err(PolicyCommandError::OperationFailed);
            }
            let ghost len = stack@.len();
            let ghost k = len - n;
            let mut built: Vec<PolicyExpr> = Vec::new();
            let mut j: usize = 0;
            while j < n
                invariant
                    j <= n,
                    n < len,
                    k == len - n,
                    stack@.len() == len - j,
                    spec_stack_view(stack@) == st.take(len - j),
                    st.len() == len,
                    spec_exprs_view(built@) == Seq::new(
                        j as nat,
                        |t: int| spec_build_and_branch(st[len - 1 - t]),
                    ),
                decreases n - j,
            {
                let ghost before = stack@;
                proof {
                    lemma_stack_view_drop_last(before);
                }
                let b = stack.pop().unwrap();
                assert(spec_exprs_view(b@) == st[len - 1 - j]);
                let x = build_and_branch(b);
                proof {
                    lemma_exprs_view_push(built@, x);
                }
                built.push(x);
                j = j + 1;
                assert(spec_stack_view(stack@) =~= st.take(len - j));
                assert(spec_exprs_view(built@) =~= Seq::new(
                    j as nat,
                    |t: int| spec_build_and_branch(st[len - 1 - t]),
                ));
            }
            let mut branches: Vec<PolicyExpr> = Vec::new();
            assert(spec_exprs_view(branches@) =~= Seq::new(0, |t: int| spec_build_and_branch(st[k + t])));
            while built.len() > 0
                invariant
                    n < len,
                    k == len - n,
                    st.len() == len,
                    built@.len() + branches@.len() == n,
                    spec_exprs_view(built@) == Seq::new(
                        built@.len(),
                        |t: int| spec_build_and_branch(st[len - 1 - t]),
                    ),
                    spec_exprs_view(branches@) == Seq::new(
                        branches@.len(),
                        |t: int| spec_build_and_branch(st[k + t]),
                    ),
                decreases built@.len(),
            {
                let ghost before = built@;
                proof {
                    lemma_exprs_view_drop_last(before);
                }
                let x = built.pop().unwrap();
                assert(spec_exprs_view(before)[before.len() - 1] == x@);
                assert(x@ == spec_build_and_branch(st[k + branches@.len()]));
                proof {
                    lemma_exprs_view_push(branches@, x);
                }
                branches.push(x);
                assert(spec_exprs_view(built@) =~= Seq::new(
                    built@.len(),
                    |t: int| spec_build_and_branch(st[len - 1 - t]),
                ));
                assert(spec_exprs_view(branches@) =~= Seq::new(
                    branches@.len(),
                    |t: int| spec_build_and_branch(st[k + t]),
                ));
            }
            proof {
                lemma_and_or_view(branches);
            }
            assert(spec_stack_view(stack@) == st.take(k));
            assert(spec_exprs_view(branches@) =~= Seq::new(n as nat, |i: int| spec_build_and_branch(st[k + i])));
            push_top(stack, PolicyExpr::Or(branches));
            Ok(())
        },
        PolicyCommand::Other(cc) => Err(PolicyCommandError::InvalidCc(*cc)),
    }
}

/// Rebuilds the expression that a command list stands for, as
/// `spec_from_command_list` gives it: restarts open branches, an OR closes
/// as many branches as it has digests, and the commands of a branch are the
/// conjunction of their expressions.
pub fn from_command_list(list: &Vec<(PolicyCommand, Vec<TpmsAuthCommand>)>) -> (r: Result<
    PolicyExpr,
    PolicyCommandError,
>)
    ensures
        match spec_from_command_list(list@) {
            Ok(v) => r matches Ok(e) && e@ == v,
            Err(x) => r matches Err(y) && y == x,
        },
{
    let ghost shapes = spec_shapes(list@);
    let ghost init: Seq<Seq<ExprView>> = seq![Seq::empty()];
    let mut stack: Vec<Vec<PolicyExpr>> = Vec::new();
    let empty: Vec<PolicyExpr> = Vec::new();
    proof {
        lemma_stack_view_push(stack@, empty);
        lemma_exprs_view_empty();
        assert(spec_stack_view(Seq::<Vec<PolicyExpr>>::empty()) =~= Seq::<Seq<ExprView>>::empty());
    }
    stack.push(empty);
    assert(spec_stack_view(stack@) =~= init);
    assert(shapes.take(0) =~= Seq::<ShapeItem>::empty());
    let mut i: usize = 0;
    while i < list.len()
        invariant
            i <= list@.len(),
            shapes == spec_shapes(list@),
            init == seq![Seq::<ExprView>::empty()],
            spec_from_run(init, shapes.take(i as int)) == Ok::<
                Seq<Seq<ExprView>>,
                PolicyCommandError,
            >(spec_stack_view(stack@)),
        decreases list@.len() - i,
    {
        proof {
            assert(shapes.take(i + 1) =~= shapes.take(i as int).push(shapes[i as int]));
            lemma_from_run_push(init, shapes.take(i as int), shapes[i as int]);
        }
        match from_step(&mut stack, &list[i].0, &list[i].1) {
            Ok(()) => {},
            Err(e) => {
                proof {
                    lemma_from_run_prefix_err(init, shapes, i + 1);
                }
                return Err(e);
            },
        }
        i = i + 1;
    }
    assert(shapes.take(i as int) =~= shapes);
    if stack.len() != 1 {
        return Err(PolicyCommandError::OperationFailed);
    }
    let ghost st = spec_stack_view(stack@);
    proof {
        lemma_stack_view_drop_last(stack@);
    }
    let b = stack.pop().unwrap();
    assert(spec_exprs_view(b@) == st[0]);
    Ok(build_and_branch(b))
}

/// A run that fails on a prefix fails on the whole list with the same error.
proof fn lemma_from_run_prefix_err(st: Seq<Seq<ExprView>>, shapes: Seq<ShapeItem>, k: int)
    requires
        0 <= k <= shapes.len(),
        spec_from_run(st, shapes.take(k)) is Err,
    ensures
        spec_from_run(st, shapes) == spec_from_run(st, shapes.take(k)),
{
    lemma_from_run_concat(st, shapes.take(k), shapes.skip(k));
    assert(shapes.take(k) + shapes.skip(k) =~= shapes);
}

// ---------------------------------------------------------------------------
// Building the command list of an expression.
// ---------------------------------------------------------------------------

/// The most digests a `TPM2_PolicyOR` takes.
pub const MAX_POLICY_OR_DIGESTS: usize = 8;

/// The password bytes of a secret's optional password expression: those of
/// a password, none otherwise.
pub open spec fn spec_password_bytes(p: Option<Box<ExprView>>) -> Seq<u8> {
    match p {
        Some(b) => match *b {
            ExprView::Password(v) => v,
            _ => Seq::empty(),
        },
        None => Seq::empty(),
    }
}

/// What the commands built from an expression say: a PCR policy with its
/// digest is one PCR command; a secret of a handle is one secret command
/// with the password's bytes; a conjunction is the commands of its parts one
/// after another; a disjunction is, for each branch, a restart and the
/// branch's commands, then an OR of as many digests as branches.
pub open spec fn spec_to_shapes(e: ExprView) -> Seq<ShapeItem>
    decreases e, 0nat,
{
    match e {
        ExprView::Pcr { selections, digest } => match digest {
            Some(d) => seq![ShapeItem::Pcr { pcr_digest: d, pcrs: selections }],
            None => Seq::empty(),
        },
        ExprView::Secret { auth_handle, password } => match *auth_handle {
            ExprView::Handle { mask, value } => seq![
                ShapeItem::Secret { auth_handle: value, password: Some(spec_password_bytes(password)) },
            ],
            _ => Seq::empty(),
        },
        ExprView::And(bs) => spec_and_shapes(bs, bs.len() as int),
        ExprView::Or(bs) => spec_or_shapes(bs, bs.len() as int).push(ShapeItem::Or(bs.len())),
        _ => Seq::empty(),
    }
}

/// What the commands of the first `k` parts of a conjunction say.
pub open spec fn spec_and_shapes(bs: Seq<ExprView>, k: int) -> Seq<ShapeItem>
    decreases bs, k,
{
    if k <= 0 || k > bs.len() {
        Seq::empty()
    } else {
        spec_and_shapes(bs, k - 1) + spec_to_shapes(bs[k - 1])
    }
}

/// What the commands of the first `k` branches of a disjunction say, each
/// after a restart.
pub open spec fn spec_or_shapes(bs: Seq<ExprView>, k: int) -> Seq<ShapeItem>
    decreases bs, k,
{
    if k <= 0 || k > bs.len() {
        Seq::empty()
    } else {
        spec_or_shapes(bs, k - 1) + seq![ShapeItem::Restart] + spec_to_shapes(bs[k - 1])
    }
}

/// Every PCR selection list of the expression fits a `TPML_PCR_SELECTION`.
pub open spec fn spec_expr_fits(e: ExprView) -> bool
    decreases e, 0nat,
{
    match e {
        ExprView::Pcr { selections, digest } => selections.len() <= MAX_PCR_SELECTIONS && forall|i: int|
            0 <= i < selections.len() ==> (#[trigger] selections[i]).mask.len() <= TPM_PCR_SELECT_MAX,
        ExprView::And(bs) => spec_all_fit(bs, bs.len() as int),
        ExprView::Or(bs) => spec_all_fit(bs, bs.len() as int),
        _ => true,
    }
}

/// The first `k` expressions of `bs` fit.
pub open spec fn spec_all_fit(bs: Seq<ExprView>, k: int) -> bool
    decreases bs, k,
{
    if k <= 0 || k > bs.len() {
        true
    } else {
        spec_all_fit(bs, k - 1) && spec_expr_fits(bs[k - 1])
    }
}

/// The first error that building the command list of `e` meets, for a
/// session of digest size `size`, apart from failures of the session's hash
/// computations: a PCR policy without a digest (`PcrDigestMissing`) or with
/// one of another size (`InvalidPcrDigest`); a secret whose first part is
/// no handle (`InvalidExpression`) or a pattern (`PatternDenied`), whose name
/// `spec_secret_name` refuses, or whose password is longer than a digest
/// (`OperationFailed`); the first error of the parts of a conjunction; the
/// first error of the branches of a disjunction, or a ninth branch
/// (`TooManyBranches`); and a password or a handle on its own
/// (`InvalidExpression`). None when there is none.
pub open spec fn spec_walk_fault(e: ExprView, names: Seq<(u32, Vec<u8>)>, size: nat) -> Option<
    PolicyCommandError,
>
    decreases e, 0nat,
{
    match e {
        ExprView::Pcr { selections, digest } => match digest {
            None => Some(PolicyCommandError::PcrDigestMissing),
            Some(d) => if d.len() != size {
                Some(PolicyCommandError::InvalidPcrDigest)
            } else {
                None
            },
        },
        ExprView::Secret { auth_handle, password } => match *auth_handle {
            ExprView::Handle { mask, value } => if mask != 0xFFFF_FFFF {
                Some(PolicyCommandError::PatternDenied)
            } else {
                match spec_secret_name(names, value) {
                    Err(x) => Some(x),
                    Ok(_) => if spec_password_bytes(password).len() > MAX_DIGEST_SIZE {
                        Some(PolicyCommandError::OperationFailed)
                    } else {
                        None
                    },
                }
            },
            _ => Some(PolicyCommandError::InvalidExpression),
        },
        ExprView::And(bs) => spec_and_fault(bs, bs.len() as int, names, size),
        ExprView::Or(bs) => spec_or_fault(bs, bs.len() as int, names, size),
        _ => Some(PolicyCommandError::InvalidExpression),
    }
}

/// The first error among the first `k` parts of a conjunction.
pub open spec fn spec_and_fault(bs: Seq<ExprView>, k: int, names: Seq<(u32, Vec<u8>)>, size: nat) -> Option<
    PolicyCommandError,
>
    decreases bs, k,
{
    if k <= 0 || k > bs.len() {
        None
    } else {
        match spec_and_fault(bs, k - 1, names, size) {
            Some(f) => Some(f),
            None => spec_walk_fault(bs[k - 1], names, size),
        }
    }
}

/// The first error among the first `k` branches of a disjunction, a
/// branch beyond `MAX_POLICY_OR_DIGESTS` being `TooManyBranches`.
pub open spec fn spec_or_fault(bs: Seq<ExprView>, k: int, names: Seq<(u32, Vec<u8>)>, size: nat) -> Option<
    PolicyCommandError,
>
    decreases bs, k,
{
    if k <= 0 || k > bs.len() {
        None
    } else {
        match spec_or_fault(bs, k - 1, names, size) {
            Some(f) => Some(f),
            None => match spec_walk_fault(bs[k - 1], names, size) {
                Some(f) => Some(f),
                None => if k - 1 >= MAX_POLICY_OR_DIGESTS {
                    Some(PolicyCommandError::TooManyBranches)
                } else {
                    None
                },
            },
        }
    }
}

proof fn lemma_and_fault_stays(bs: Seq<ExprView>, k: int, n: int, names: Seq<(u32, Vec<u8>)>, size: nat)
    requires
        0 <= k <= n <= bs.len(),
        spec_and_fault(bs, k, names, size) is Some,
    ensures
        spec_and_fault(bs, n, names, size) == spec_and_fault(bs, k, names, size),
    decreases n - k,
{
    if k < n {
        lemma_and_fault_stays(bs, k, n - 1, names, size);
    }
}

proof fn lemma_or_fault_stays(bs: Seq<ExprView>, k: int, n: int, names: Seq<(u32, Vec<u8>)>, size: nat)
    requires
        0 <= k <= n <= bs.len(),
        spec_or_fault(bs, k, names, size) is Some,
    ensures
        spec_or_fault(bs, n, names, size) == spec_or_fault(bs, k, names, size),
    decreases n - k,
{
    if k < n {
        lemma_or_fault_stays(bs, k, n - 1, names, size);
    }
}

/// A failure of a hash computation of the policy session.
pub open spec fn spec_session_failure(r: Result<Vec<u8>, PolicyCommandError>) -> bool {
    r matches Err(PolicyCommandError::Policy(pe)) && (pe is Crypto || pe is Protocol)
}

pub proof fn lemma_all_fit(bs: Seq<ExprView>, k: int, i: int)
    requires
        spec_all_fit(bs, k),
        0 <= i < k <= bs.len(),
    ensures
        spec_expr_fits(bs[i]),
    decreases k,
{
    if i < k - 1 {
        lemma_all_fit(bs, k - 1, i);
    }
}

fn copy_digests(v: &Vec<Vec<u8>>) -> (r: Vec<Vec<u8>>)
    ensures
        r@.len() == v@.len(),
        forall|i: int| 0 <= i < v@.len() ==> (#[trigger] r@[i])@ == v@[i]@,
{
    let mut r: Vec<Vec<u8>> = Vec::new();
    let mut i: usize = 0;
    while i < v.len()
        invariant
            i <= v@.len(),
            r@.len() == i,
            forall|j: int| 0 <= j < i ==> (#[trigger] r@[j])@ == v@[j]@,
        decreases v@.len() - i,
    {
        r.push(slice_to_vec(v[i].as_slice()));
        i = i + 1;
    }
    r
}

proof fn lemma_push_shape(
    old_list: Seq<(PolicyCommand, Vec<TpmsAuthCommand>)>,
    new_list: Seq<(PolicyCommand, Vec<TpmsAuthCommand>)>,
)
    requires
        new_list.len() == old_list.len() + 1,
        new_list.take(old_list.len() as int) == old_list,
    ensures
        spec_shapes(new_list) == spec_shapes(old_list) + seq![spec_shape(new_list.last().0, new_list.last().1@)],
{
    assert(new_list =~= old_list.push(new_list.last()));
    lemma_shapes_push(old_list, new_list.last());
    assert(spec_shapes(old_list).push(spec_shape(new_list.last().0, new_list.last().1@)) =~= spec_shapes(
        old_list,
    ) + seq![spec_shape(new_list.last().0, new_list.last().1@)]);
}

/// Adds the policy commands that an expression stands for to
/// `command_list`, applies them to `session`, and returns the resulting
/// policy digest.
///
/// A PCR policy and a secret go as `to_command_list_walk_pcr` and
/// `to_command_list_walk_secret` do (a secret's first part must be a handle,
/// else `InvalidExpression`; its password is that of a password expression,
/// none otherwise); a conjunction goes part after part; a disjunction goes
/// branch after branch, each after a restart, collecting the branch digests
/// (more than `MAX_POLICY_OR_DIGESTS` is `TooManyBranches`), then adds an OR
/// of them. A password or a handle on its own is `InvalidExpression`. When
/// it succeeds, the commands added are those `spec_to_shapes` gives.
pub fn to_command_list_walk(
    e: &PolicyExpr,
    names: &Vec<(u32, Vec<u8>)>,
    command_list: &mut Vec<(PolicyCommand, Vec<TpmsAuthCommand>)>,
    session: &mut SoftwarePolicySession,
) -> (r: Result<Vec<u8>, PolicyCommandError>)
    requires
        spec_expr_fits(e@),
    ensures
        r is Ok ==> spec_shapes(final(command_list)@) == spec_shapes(old(command_list)@)
            + spec_to_shapes(e@),
        r matches Ok(d) ==> d@ == final(session)@.digest,
        final(session)@.digest_size == old(session)@.digest_size,
        final(session)@.hash_alg == old(session)@.hash_alg,
        spec_session_failure(r) || match spec_walk_fault(e@, names@, old(session)@.digest_size) {
            None => r is Ok,
            Some(f) => r matches Err(x) && x == f,
        },
    decreases e,
{
    let ghost list0 = command_list@;
    let ghost size = session@.digest_size;
    match e {
        PolicyExpr::Pcr { selections, digest } => {
            let d = match digest {
                Some(d) => Some(d.as_slice()),
                None => None,
            };
            proof {
                assert forall|i: int| 0 <= i < selections@.len() implies (#[trigger] selections@[i]).pcr_select@.len()
                    <= TPM_PCR_SELECT_MAX by {
                    assert(selections_view(selections@)[i] == selections@[i]@);
                }
            }
            let r = to_command_list_walk_pcr(selections, d, command_list, session);
            proof {
                if r is Ok {
                    lemma_push_shape(list0, command_list@);
                }
            }
            r
        },
        PolicyExpr::Secret { auth_handle, password } => {
            let empty: Vec<u8> = Vec::new();
            match &**auth_handle {
                PolicyExpr::Handle(h) => {
                    let pw: &[u8] = match password {
                        Some(p) => match &**p {
                            PolicyExpr::Password(v) => {
                                assert(spec_expr_view(**p) == ExprView::Password(v@));
                                v.as_slice()
                            },
                            _ => {
                                assert(!(spec_expr_view(**p) is Password));
                                empty.as_slice()
                            },
                        },
                        None => empty.as_slice(),
                    };
                    assert(spec_expr_view(**auth_handle) == (ExprView::Handle { mask: h.mask_bits(), value: h.value_bits() }));
                    assert(pw@ == spec_password_bytes(e@->Secret_password));
                    let r = to_command_list_walk_secret(h, pw, names, command_list, session);
                    proof {
                        if r is Ok {
                            lemma_push_shape(list0, command_list@);
                        }
                    }
                    r
                },
                _ => Err(PolicyCommandError::InvalidExpression),
            }
        },
        PolicyExpr::And(v) => {
            proof {
                lemma_and_or_view(*v);
            }
            let ghost bs = spec_exprs_view(v@);
            let mut i: usize = 0;
            assert(spec_shapes(list0) + spec_and_shapes(bs, 0) =~= spec_shapes(list0));
            while i < v.len()
                invariant
                    *e == PolicyExpr::And(*v),
                    bs == spec_exprs_view(v@),
                    e@ == ExprView::And(bs),
                    spec_expr_fits(e@),
                    i <= v@.len(),
                    spec_shapes(command_list@) == spec_shapes(list0) + spec_and_shapes(bs, i as int),
                    size == old(session)@.digest_size,
                    session@.digest_size == size,
                    session@.hash_alg == old(session)@.hash_alg,
                    spec_and_fault(bs, i as int, names@, size) is None,
                decreases v@.len() - i,
            {
                proof {
                    assert(decreases_to!(*e => (*e)->And_0));
                    assert(decreases_to!(*v => v@));
                    assert(decreases_to!(v@ => v@[i as int]));
                    lemma_all_fit(bs, bs.len() as int, i as int);
                    assert(bs[i as int] == v@[i as int]@);
                }
                let ghost before = command_list@;
                match to_command_list_walk(&v[i], names, command_list, session) {
                    Ok(_) => {},
                    Err(err) => {
                        proof {
                            if !spec_session_failure(Err::<Vec<u8>, PolicyCommandError>(err)) {
                                lemma_and_fault_stays(bs, i + 1, bs.len() as int, names@, size);
                            }
                        }
                        return Err(err);
                    },
                }
                i = i + 1;
                assert(spec_shapes(command_list@) =~= spec_shapes(list0) + spec_and_shapes(bs, i as int));
            }
            match session.get_digest() {
                Ok(d) => Ok(d),
                Err(err) => Err(PolicyCommandError::Policy(err)),
            }
        },
        PolicyExpr::Or(v) => {
            proof {
                lemma_and_or_view(*v);
            }
            let ghost bs = spec_exprs_view(v@);
            let mut digests: Vec<Vec<u8>> = Vec::new();
            let mut i: usize = 0;
            assert(spec_shapes(list0) + spec_or_shapes(bs, 0) =~= spec_shapes(list0));
            while i < v.len()
                invariant
                    *e == PolicyExpr::Or(*v),
                    bs == spec_exprs_view(v@),
                    e@ == ExprView::Or(bs),
                    spec_expr_fits(e@),
                    i <= v@.len(),
                    digests@.len() == i,
                    spec_shapes(command_list@) == spec_shapes(list0) + spec_or_shapes(bs, i as int),
                    size == old(session)@.digest_size,
                    session@.digest_size == size,
                    session@.hash_alg == old(session)@.hash_alg,
                    spec_or_fault(bs, i as int, names@, size) is None,
                decreases v@.len() - i,
            {
                proof {
                    assert(decreases_to!(*e => (*e)->Or_0));
                    assert(decreases_to!(*v => v@));
                    assert(decreases_to!(v@ => v@[i as int]));
                    lemma_all_fit(bs, bs.len() as int, i as int);
                    assert(bs[i as int] == v@[i as int]@);
                }
                let ghost before = command_list@;
                command_list.push((PolicyCommand::Restart, Vec::new()));
                proof {
                    lemma_shapes_push(before, command_list@.last());
                    assert(command_list@ =~= before.push(command_list@.last()));
                }
                let _ = session.policy_restart();
                let d = match to_command_list_walk(&v[i], names, command_list, session) {
                    Ok(d) => d,
                    Err(err) => {
                        proof {
                            if !spec_session_failure(Err::<Vec<u8>, PolicyCommandError>(err)) {
                                lemma_or_fault_stays(bs, i + 1, bs.len() as int, names@, size);
                            }
                        }
                        return Err(err);
                    },
                };
                if digests.len() >= MAX_POLICY_OR_DIGESTS {
                    proof {
                        lemma_or_fault_stays(bs, i + 1, bs.len() as int, names@, size);
                    }
                    return Err(PolicyCommandError::TooManyBranches);
                }
                digests.push(d);
                i = i + 1;
                assert(spec_shapes(command_list@) =~= spec_shapes(list0) + spec_or_shapes(bs, i as int));
            }
            let ghost before = command_list@;
            command_list.push((PolicyCommand::Or { p_hash_list: copy_digests(&digests) }, Vec::new()));
            proof {
                lemma_shapes_push(before, command_list@.last());
                assert(command_list@ =~= before.push(command_list@.last()));
                assert(spec_shapes(command_list@) =~= spec_shapes(list0) + spec_to_shapes(e@));
            }
            match session.policy_or(&digests) {
                Ok(()) => {},
                Err(err) => {
                    return Err(PolicyCommandError::Policy(err));
                },
            }
            match session.get_digest() {
                Ok(d) => Ok(d),
                Err(err) => Err(PolicyCommandError::Policy(err)),
            }
        },
        _ => Err(PolicyCommandError::InvalidExpression),
    }
}

/// Builds the list of policy commands that an expression stands for, with
/// a fresh software policy session of the hash `session_hash_alg`, and
/// returns it with the final policy digest. A hash the session refuses is a
/// `Policy` error; the rest goes as `to_command_list_walk`.
pub fn to_command_list(
    e: &PolicyExpr,
    session_hash_alg: TpmAlgId,
    names: &Vec<(u32, Vec<u8>)>,
) -> (r: Result<(Vec<(PolicyCommand, Vec<TpmsAuthCommand>)>, Vec<u8>), PolicyCommandError>)
    requires
        spec_expr_fits(e@),
    ensures
        r matches Ok((list, d)) ==> spec_shapes(list@) == spec_to_shapes(e@),
        match spec_crypto_hash_size(session_hash_alg) {
            None => r matches Err(PolicyCommandError::Policy(pe)) && pe == PolicyError::InvalidAlgorithm(
                session_hash_alg,
            ),
            Some(n) => (r matches Err(PolicyCommandError::Policy(pe)) && (pe is Crypto || pe is Protocol))
                || match spec_walk_fault(e@, names@, n) {
                None => r is Ok,
                Some(f) => r matches Err(x) && x == f,
            },
        },
{
    let mut session = match SoftwarePolicySession::new(session_hash_alg) {
        Ok(s) => s,
        Err(err) => {
            return Err(PolicyCommandError::Policy(err));
        },
    };
    let mut list: Vec<(PolicyCommand, Vec<TpmsAuthCommand>)> = Vec::new();
    assert(spec_shapes(list@) =~= Seq::<ShapeItem>::empty());
    let d = match to_command_list_walk(e, names, &mut list, &mut session) {
        Ok(d) => d,
        Err(err) => {
            return Err(err);
        },
    };
    assert(Seq::<ShapeItem>::empty() + spec_to_shapes(e@) =~= spec_to_shapes(e@));
    Ok((list, d))
}

// ---------------------------------------------------------------------------
// Rebuilding gives back what was built.
// ---------------------------------------------------------------------------

/// An expression in the form that building and rebuilding keep: a PCR
/// policy carries its digest; a secret is of a single handle with a password
/// expression; a conjunction does not have exactly one part and none of its
/// parts is a conjunction; the parts of conjunctions and disjunctions are in
/// that form too. A password or a handle on its own builds no command.
pub open spec fn spec_normalized(e: ExprView) -> bool
    decreases e, 0nat,
{
    match e {
        ExprView::Pcr { selections, digest } => digest is Some,
        ExprView::Secret { auth_handle, password } => {
            &&& (*auth_handle matches ExprView::Handle { mask, value } && mask == 0xFFFF_FFFF)
            &&& (password matches Some(b) && *b is Password)
        },
        ExprView::And(bs) => bs.len() != 1 && spec_all_normalized(bs, bs.len() as int, true),
        ExprView::Or(bs) => spec_all_normalized(bs, bs.len() as int, false),
        _ => false,
    }
}

/// The first `k` expressions of `bs` are in normal form, and when `no_and`
/// holds none of them is a conjunction.
pub open spec fn spec_all_normalized(bs: Seq<ExprView>, k: int, no_and: bool) -> bool
    decreases bs, k,
{
    if k <= 0 || k > bs.len() {
        true
    } else {
        &&& spec_all_normalized(bs, k - 1, no_and)
        &&& spec_normalized(bs[k - 1])
        &&& (no_and ==> !(bs[k - 1] is And))
    }
}

proof fn lemma_all_normalized(bs: Seq<ExprView>, k: int, no_and: bool, i: int)
    requires
        spec_all_normalized(bs, k, no_and),
        0 <= i < k <= bs.len(),
    ensures
        spec_normalized(bs[i]),
        no_and ==> !(bs[i] is And),
    decreases k,
{
    if i < k - 1 {
        lemma_all_normalized(bs, k - 1, no_and, i);
    }
}

/// What an expression adds to the branch it stands in: the parts of a
/// conjunction, or the expression itself.
pub open spec fn spec_contribution(e: ExprView) -> Seq<ExprView> {
    match e {
        ExprView::And(bs) => bs,
        _ => seq![e],
    }
}

/// Adds expressions to the branch on top of the stack.
pub open spec fn spec_push_all_top(st: Seq<Seq<ExprView>>, xs: Seq<ExprView>) -> Seq<Seq<ExprView>> {
    st.update(st.len() - 1, st.last() + xs)
}

proof fn lemma_push_top_all(st: Seq<Seq<ExprView>>, e: ExprView)
    requires
        st.len() >= 1,
    ensures
        spec_push_top(st, e) == spec_push_all_top(st, seq![e]),
{
    assert(st.last().push(e) =~= st.last() + seq![e]);
    assert(spec_push_top(st, e) =~= spec_push_all_top(st, seq![e]));
}

proof fn lemma_build_contribution(e: ExprView)
    requires
        spec_normalized(e),
    ensures
        spec_build_and_branch(spec_contribution(e)) == e,
{
    if !(e is And) {
        assert(seq![e].len() == 1);
    }
}

/// Running the commands built from a normal expression on a stack with an
/// open branch adds the expression's contribution to that branch.
proof fn lemma_run_to_shapes(e: ExprView, st: Seq<Seq<ExprView>>)
    requires
        spec_normalized(e),
        st.len() >= 1,
    ensures
        spec_from_run(st, spec_to_shapes(e)) == Ok::<Seq<Seq<ExprView>>, PolicyCommandError>(
            spec_push_all_top(st, spec_contribution(e)),
        ),
    decreases e, 0nat,
{
    match e {
        ExprView::Pcr { selections, digest } => {
            let d = digest->0;
            assert(e == ExprView::Pcr { selections, digest: Some(d) });
            let sh = spec_to_shapes(e);
            assert(sh == seq![ShapeItem::Pcr { pcr_digest: d, pcrs: selections }]);
            assert(sh.drop_first() =~= Seq::<ShapeItem>::empty());
            assert(spec_from_step(st, sh[0]) == Ok::<Seq<Seq<ExprView>>, PolicyCommandError>(spec_push_top(st, e)));
            assert(spec_from_run(spec_push_top(st, e), sh.drop_first()) == Ok::<Seq<Seq<ExprView>>, PolicyCommandError>(spec_push_top(st, e)));
            assert(spec_from_run(st, sh) == Ok::<Seq<Seq<ExprView>>, PolicyCommandError>(spec_push_top(st, e)));
            lemma_push_top_all(st, e);
            assert(spec_contribution(e) == seq![e]);
        },
        ExprView::Secret { auth_handle, password } => {
            let value = auth_handle->value;
            let pw = password->0->Password_0;
            assert(*auth_handle == ExprView::Handle { mask: 0xFFFF_FFFF, value });
            assert(password == Some(Box::new(ExprView::Password(pw))));
            assert(spec_password_bytes(password) == pw);
            let sh = spec_to_shapes(e);
            assert(sh == seq![ShapeItem::Secret { auth_handle: value, password: Some(pw) }]);
            assert(sh.drop_first() =~= Seq::<ShapeItem>::empty());
            assert(spec_from_step(st, sh[0]) == Ok::<Seq<Seq<ExprView>>, PolicyCommandError>(spec_push_top(st, e)));
            assert(spec_from_run(spec_push_top(st, e), sh.drop_first()) == Ok::<Seq<Seq<ExprView>>, PolicyCommandError>(spec_push_top(st, e)));
            assert(spec_from_run(st, sh) == Ok::<Seq<Seq<ExprView>>, PolicyCommandError>(spec_push_top(st, e)));
            lemma_push_top_all(st, e);
        },
        ExprView::And(bs) => {
            lemma_run_and_shapes(bs, bs.len() as int, st);
            assert(bs.take(bs.len() as int) =~= bs);
        },
        ExprView::Or(bs) => {
            let n = bs.len();
            lemma_run_or_shapes(bs, n as int, st);
            let st3 = st + Seq::new(n, |i: int| spec_contribution(bs[i]));
            lemma_from_run_push(st, spec_or_shapes(bs, n as int), ShapeItem::Or(n));
            let k = st3.len() - n;
            assert(k == st.len());
            assert(st3.take(k) =~= st);
            assert(Seq::new(n, |i: int| spec_build_and_branch(st3[k + i])) =~= bs) by {
                assert forall|i: int| 0 <= i < n implies spec_build_and_branch(st3[k + i]) == bs[i] by {
                    lemma_all_normalized(bs, n as int, false, i);
                    lemma_build_contribution(bs[i]);
                }
            }
            lemma_push_top_all(st, e);
        },
        _ => {},
    }
}

proof fn lemma_run_and_shapes(bs: Seq<ExprView>, k: int, st: Seq<Seq<ExprView>>)
    requires
        spec_all_normalized(bs, bs.len() as int, true),
        0 <= k <= bs.len(),
        st.len() >= 1,
    ensures
        spec_from_run(st, spec_and_shapes(bs, k)) == Ok::<Seq<Seq<ExprView>>, PolicyCommandError>(
            spec_push_all_top(st, bs.take(k)),
        ),
    decreases bs, k,
{
    if k == 0 {
        assert(spec_push_all_top(st, bs.take(0)) =~= st);
    } else {
        lemma_run_and_shapes(bs, k - 1, st);
        let st1 = spec_push_all_top(st, bs.take(k - 1));
        lemma_all_normalized(bs, bs.len() as int, true, k - 1);
        lemma_run_to_shapes(bs[k - 1], st1);
        lemma_from_run_concat(st, spec_and_shapes(bs, k - 1), spec_to_shapes(bs[k - 1]));
        assert(st1.last() == st.last() + bs.take(k - 1));
        assert((st.last() + bs.take(k - 1)) + seq![bs[k - 1]] =~= st.last() + bs.take(k));
        assert(spec_push_all_top(st1, seq![bs[k - 1]]) =~= spec_push_all_top(st, bs.take(k)));
    }
}

proof fn lemma_run_or_shapes(bs: Seq<ExprView>, k: int, st: Seq<Seq<ExprView>>)
    requires
        spec_all_normalized(bs, bs.len() as int, false),
        0 <= k <= bs.len(),
        st.len() >= 1,
    ensures
        spec_from_run(st, spec_or_shapes(bs, k)) == Ok::<Seq<Seq<ExprView>>, PolicyCommandError>(
            st + Seq::new(k as nat, |i: int| spec_contribution(bs[i])),
        ),
    decreases bs, k,
{
    if k == 0 {
        assert(st + Seq::new(0, |i: int| spec_contribution(bs[i])) =~= st);
    } else {
        lemma_run_or_shapes(bs, k - 1, st);
        let st1 = st + Seq::new((k - 1) as nat, |i: int| spec_contribution(bs[i]));
        let st2 = st1.push(Seq::<ExprView>::empty());
        lemma_all_normalized(bs, bs.len() as int, false, k - 1);
        lemma_run_to_shapes(bs[k - 1], st2);
        let a = spec_or_shapes(bs, k - 1);
        lemma_from_run_concat(st, a + seq![ShapeItem::Restart], spec_to_shapes(bs[k - 1]));
        lemma_from_run_push(st, a, ShapeItem::Restart);
        assert(a + seq![ShapeItem::Restart] =~= a.push(ShapeItem::Restart));
        assert(spec_push_all_top(st2, spec_contribution(bs[k - 1])) =~= st + Seq::new(
            k as nat,
            |i: int| spec_contribution(bs[i]),
        ));
    }
}

/// Rebuilding the expression from what the commands built from it say
/// gives the expression back, for every expression in normal form.
pub proof fn lemma_from_shapes_inverts(e: ExprView)
    requires
        spec_normalized(e),
    ensures
        spec_from_shapes(spec_to_shapes(e)) == Ok::<ExprView, PolicyCommandError>(e),
{
    let st: Seq<Seq<ExprView>> = seq![Seq::empty()];
    lemma_run_to_shapes(e, st);
    lemma_build_contribution(e);
    assert(spec_push_all_top(st, spec_contribution(e)) =~= seq![spec_contribution(e)]);
}

/// `from_command_list` undoes `to_command_list`: a command list that says
/// what the commands built from an expression in normal form say (as the
/// list `to_command_list` returns does) rebuilds to that expression.
pub proof fn lemma_from_command_list_inverts(
    e: ExprView,
    list: Seq<(PolicyCommand, Vec<TpmsAuthCommand>)>,
)
    requires
        spec_normalized(e),
        spec_shapes(list) == spec_to_shapes(e),
    ensures
        spec_from_command_list(list) == Ok::<ExprView, PolicyCommandError>(e),
{
    lemma_from_shapes_inverts(e);
}

} // verus!
