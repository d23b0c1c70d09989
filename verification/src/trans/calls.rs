//! The calling convention: which function a call reaches, under which name
//! and in which form it is called, and what becomes of its result.

use vstd::prelude::*;
use vstd::string::StringExecFns;
use super::frame::spec_args;
use super::names::{sanitize_symbol, spec_sanitize_symbol};
use super::types::{
    is_never, is_nil, rust_ty_to_binaryen, spec_rust_ty_to_builder, spec_type_kind, type_kind,
};
use crate::binaryen::builder::Type;
use crate::error::ErrorKind;
use crate::mir::{ConstVal, DefId, FnRef, Literal, Operand, Program, SigId, TyKind};

verus! {

/// The form of a call: of a function of the module, or of an imported one.
#[derive(Copy, Clone, Debug, PartialEq, Eq, Structural)]
pub enum BinaryenCallKind {
    Direct,
    Import,
}

/// What a call site needs to know of the function it calls.
#[derive(Clone, Debug, PartialEq, Eq)]
pub struct CalleeInfo {
    /// The definition reached, and the signature it is reached at.
    pub did: DefId,
    pub sig: SigId,
    pub name: String,
    pub ret_ty: Type,
    pub kind: BinaryenCallKind,
    pub is_never: bool,
}

pub ghost struct CalleeView {
    pub did: DefId,
    pub sig: SigId,
    pub name: Seq<char>,
    pub ret_ty: Type,
    pub kind: BinaryenCallKind,
    pub is_never: bool,
}

impl View for CalleeInfo {
    type V = CalleeView;

    open spec fn view(&self) -> CalleeView {
        CalleeView {
            did: self.did,
            sig: self.sig,
            name: self.name@,
            ret_ty: self.ret_ty,
            kind: self.kind,
            is_never: self.is_never,
        }
    }
}

/// The name under which the definition `did` is called: the name its link
/// metadata gives, or else the symbol of its path.
pub open spec fn spec_symbol(program: &Program, did: DefId) -> Seq<char> {
    match program.defs[did as int].link {
        Some(l) => l.name@,
        None => spec_sanitize_symbol(program.defs[did as int].path@),
    }
}

/// The function an operand in callee position names: the operand must be
/// a constant that is a function item.
pub open spec fn spec_fn_ref(operand: &Operand) -> Result<FnRef, ErrorKind> {
    match operand {
        Operand::Constant(c) => match c.literal {
            Literal::Item(f) => Ok(f),
            Literal::Value(ConstVal::Function(f)) => Ok(f),
            _ => Err(ErrorKind::UnsupportedCallee),
        },
        Operand::Consume(_) => Err(ErrorKind::UnsupportedCallee),
    }
}

/// The definition a call of `f` reaches: the implementation a trait method
/// resolves to, or else the definition named.
pub open spec fn spec_target(f: FnRef) -> DefId {
    match f.resolved {
        Some(d) => d,
        None => f.def_id,
    }
}

/// The type of the value that a call of a function with a result of kind
/// `kind` yields: none for the unit and never types.
pub open spec fn spec_call_ret(kind: TyKind) -> Type {
    if !is_nil(kind) {
        spec_rust_ty_to_builder(kind)
    } else {
        None
    }
}

/// What a call of `f` calls.
///
/// The definition named must be one of the crate being lowered. A function
/// with link metadata is imported and called at its declared signature,
/// which must have representable parameters; any other is called directly,
/// at the signature of the call site. The call does not return where the
/// result is of the never type or the definition named has the path
/// `panic`.
pub open spec fn spec_callee(program: &Program, f: FnRef) -> Result<CalleeView, ErrorKind> {
    let target = spec_target(f);
    if f.def_id >= program.defs.len() || !program.defs[f.def_id as int].is_local || target
        >= program.defs.len() {
        Err(ErrorKind::UnsupportedCallee)
    } else {
        let import = program.defs[target as int].link is Some;
        let sig = if import {
            program.defs[target as int].sig
        } else {
            f.mono_sig
        };
        if sig >= program.sigs.len() || program.defs[target as int].sig >= program.sigs.len() {
            Err(ErrorKind::UnsupportedCallee)
        } else {
            match spec_type_kind(program, program.sigs[sig as int].output) {
                Err(e) => Err(e),
                Ok(kind) => {
                    let callee = CalleeView {
                        did: target,
                        sig,
                        name: spec_symbol(program, target),
                        ret_ty: spec_call_ret(kind),
                        kind: if import {
                            BinaryenCallKind::Import
                        } else {
                            BinaryenCallKind::Direct
                        },
                        is_never: is_never(kind) || program.defs[f.def_id as int].path@
                            == "panic"@,
                    };
                    if import {
                        match spec_args(
                            program,
                            program.sigs[sig as int].inputs@,
                            program.sigs[sig as int].inputs.len() as nat,
                        ) {
                            Err(e) => Err(e),
                            Ok(_) => Ok(callee),
                        }
                    } else {
                        Ok(callee)
                    }
                },
            }
        }
    }
}

/// The function an operand in callee position names; see
/// [`spec_fn_ref`].
pub fn fn_ref(operand: &Operand) -> (r: Result<FnRef, ErrorKind>)
    ensures
        r == spec_fn_ref(operand),
{
    match operand {
        Operand::Constant(c) => match c.literal {
            Literal::Item(f) => Ok(f),
            Literal::Value(ConstVal::Function(f)) => Ok(f),
            _ => Err(ErrorKind::UnsupportedCallee),
        },
        Operand::Consume(_) => Err(ErrorKind::UnsupportedCallee),
    }
}

/// The name under which the definition `did` is called; see
/// [`spec_symbol`].
pub fn symbol(program: &Program, did: DefId) -> (r: String)
    requires
        did < program.defs.len(),
    ensures
        r@ == spec_symbol(program, did),
{
    match &program.defs[did].link {
        Some(l) => l.name.clone(),
        None => sanitize_symbol(program.defs[did].path.as_str()),
    }
}

/// The types of the parameter slots of a function with the parameters
/// `inputs`; see [`spec_args`].
pub fn arg_types(program: &Program, inputs: &Vec<crate::mir::TypeId>) -> (r: Result<
    Vec<crate::binaryen::builder::ReprType>,
    ErrorKind,
>)
    ensures
        match r {
            Ok(tys) => spec_args(program, inputs@, inputs.len() as nat) == Ok::<
                Seq<crate::binaryen::builder::ReprType>,
                ErrorKind,
            >(tys@),
            Err(e) => spec_args(program, inputs@, inputs.len() as nat) == Err::<
                Seq<crate::binaryen::builder::ReprType>,
                ErrorKind,
            >(e),
        },
{
    let mut tys: Vec<crate::binaryen::builder::ReprType> = Vec::new();
    let mut i: usize = 0;
    while i < inputs.len()
        invariant
            i <= inputs.len(),
            spec_args(program, inputs@, i as nat) == Ok::<
                Seq<crate::binaryen::builder::ReprType>,
                ErrorKind,
            >(tys@),
        ensures
            i == inputs.len(),
        decreases inputs.len() - i,
    {
        let kind = match type_kind(program, inputs[i]) {
            Ok(k) => k,
            Err(e) => {
                proof {
                    lemma_args_fails(program, inputs@, (i + 1) as nat, inputs.len() as nat);
                }
                return Err(e);
            },
        };
        match super::types::rust_ty_to_builder(kind) {
            Some(ty) => tys.push(ty),
            None => {
                proof {
                    lemma_args_fails(program, inputs@, (i + 1) as nat, inputs.len() as nat);
                }
                return Err(ErrorKind::UnsupportedType);
            },
        }
        i += 1;
    }
    Ok(tys)
}

/// Once the first `n` parameters have no slot types, the first `m` have
/// none, for the same reason, for every `m` from `n` on.
pub proof fn lemma_args_fails(program: &Program, inputs: Seq<crate::mir::TypeId>, n: nat, m: nat)
    requires
        n <= m,
        spec_args(program, inputs, n) is Err,
    ensures
        spec_args(program, inputs, m) == spec_args(program, inputs, n),
    decreases m,
{
    if n < m {
        lemma_args_fails(program, inputs, n, (m - 1) as nat);
    }
}

/// What a call of `f` calls; see [`spec_callee`].
pub fn callee_info(program: &Program, f: FnRef) -> (r: Result<CalleeInfo, ErrorKind>)
    ensures
        match r {
            Ok(c) => spec_callee(program, f) == Ok::<CalleeView, ErrorKind>(c@),
            Err(e) => spec_callee(program, f) == Err::<CalleeView, ErrorKind>(e),
        },
{
    let target = match f.resolved {
        Some(d) => d,
        None => f.def_id,
    };
    if f.def_id >= program.defs.len() || !program.defs[f.def_id].is_local || target
        >= program.defs.len() {
        return Err(ErrorKind::UnsupportedCallee);
    }
    let import = program.defs[target].link.is_some();
    let sig = if import {
        program.defs[target].sig
    } else {
        f.mono_sig
    };
    if sig >= program.sigs.len() || program.defs[target].sig >= program.sigs.len() {
        return Err(ErrorKind::UnsupportedCallee);
    }
    let kind = type_kind(program, program.sigs[sig].output)?;
    let ret_ty = match kind {
        TyKind::Nil => None,
        _ => rust_ty_to_binaryen(kind),
    };
    let panic_path = String::from_str("panic");
    let is_never = match kind {
        TyKind::Never => true,
        _ => program.defs[f.def_id].path == panic_path,
    };
    if import {
        let _ = arg_types(program, &program.sigs[sig].inputs)?;
    }
    Ok(
        CalleeInfo {
            did: target,
            sig,
            name: symbol(program, target),
            ret_ty,
            kind: if import {
                BinaryenCallKind::Import
            } else {
                BinaryenCallKind::Direct
            },
            is_never,
        },
    )
}

} // verus!
