//! The slots of a function: which are created, in which order, and for
//! which local of the body.

use vstd::prelude::*;
use super::calls::lemma_args_fails;
use super::context::{BinaryenFnCtxt, Slots};
use super::types::{
    is_never, is_nil, rust_ty_to_builder, spec_rust_ty_to_builder, spec_type_kind, type_kind,
};
use crate::binaryen::builder::{Fn, Module, ReprType, Type};
use crate::error::ErrorKind;
use crate::mir::{DefId, LocalDecl, Mir, Program, SigId, TypeId};

verus! {

/// The slots of a function before its blocks are lowered.
///
/// `tys` are the types of all slots, in index order: the parameters, the
/// user variables and the temporaries that have one, the return value if
/// there is one, then the slot the stack pointer is saved in, the helper
/// slot of structured-control synthesis and the 64-bit scratch slot of
/// checked arithmetic. `ret` is the type of the value the function returns.
pub ghost struct Frame {
    pub slots: Slots,
    pub tys: Seq<ReprType>,
    pub sp_local: usize,
    pub relooper_local: usize,
    pub ret: Type,
    pub ret_kind: crate::mir::TyKind,
}

/// What the lowering of the blocks needs of the frame besides the slot
/// maps.
#[derive(Copy, Clone, Debug, PartialEq, Eq)]
pub struct FrameInfo {
    pub sp_local: usize,
    pub relooper_local: usize,
    pub ret: Type,
    pub ret_kind: crate::mir::TyKind,
}

impl Frame {
    /// What the lowering of the blocks needs of this frame.
    pub open spec fn info(self) -> FrameInfo {
        FrameInfo {
            sp_local: self.sp_local,
            relooper_local: self.relooper_local,
            ret: self.ret,
            ret_kind: self.ret_kind,
        }
    }
}

/// The types of the slots of the first `n` parameters. Each parameter
/// must be of a representable type.
pub open spec fn spec_args(program: &Program, inputs: Seq<TypeId>, n: nat) -> Result<
    Seq<ReprType>,
    ErrorKind,
>
    decreases n,
{
    if n == 0 {
        Ok(Seq::empty())
    } else {
        match spec_args(program, inputs, (n - 1) as nat) {
            Err(e) => Err(e),
            Ok(tys) => match spec_type_kind(program, inputs[n - 1]) {
                Err(e) => Err(e),
                Ok(kind) => match spec_rust_ty_to_builder(kind) {
                    Some(ty) => Ok(tys.push(ty)),
                    None => Err(ErrorKind::UnsupportedType),
                },
            },
        }
    }
}

/// The slots of a run of locals.
pub ghost struct LocalSlots {
    /// For each local, its slot, if values of its type are representable.
    pub map: Seq<Option<usize>>,
    /// The types of the slots created, in order.
    pub tys: Seq<ReprType>,
}

/// The slots of the first `n` of the locals `decls`, where the next free
/// slot is `base`: each local of a representable type gets the next free
/// slot, in declaration order.
pub open spec fn spec_locals(program: &Program, decls: Seq<LocalDecl>, base: nat, n: nat) -> Result<
    LocalSlots,
    ErrorKind,
>
    decreases n,
{
    if n == 0 {
        Ok(LocalSlots { map: Seq::empty(), tys: Seq::empty() })
    } else {
        match spec_locals(program, decls, base, (n - 1) as nat) {
            Err(e) => Err(e),
            Ok(prev) => match spec_type_kind(program, decls[n - 1].ty) {
                Err(e) => Err(e),
                Ok(kind) => match spec_rust_ty_to_builder(kind) {
                    Some(ty) => Ok(
                        LocalSlots {
                            map: prev.map.push(Some((base + prev.tys.len()) as usize)),
                            tys: prev.tys.push(ty),
                        },
                    ),
                    None => Ok(LocalSlots { map: prev.map.push(None), tys: prev.tys }),
                },
            },
        }
    }
}

/// The type of the value a function with a result of kind `kind` returns:
/// none for the unit and never types.
pub open spec fn spec_ret(kind: crate::mir::TyKind) -> Type {
    if !is_nil(kind) && !is_never(kind) {
        spec_rust_ty_to_builder(kind)
    } else {
        None
    }
}

/// The frame of the function with the body `mir`, lowered at the
/// signature `sig`, which must be one of the program.
pub open spec fn spec_frame(program: &Program, mir: &Mir, sig: SigId) -> Result<Frame, ErrorKind> {
    if sig < program.sigs.len() {
        spec_frame_of(program, mir, sig)
    } else {
        Err(ErrorKind::UnsupportedCallee)
    }
}

/// The frame of the function with the body `mir`, lowered at the
/// signature `sig` of the program.
pub open spec fn spec_frame_of(program: &Program, mir: &Mir, sig: SigId) -> Result<
    Frame,
    ErrorKind,
> {
    let inputs = program.sigs[sig as int].inputs@;
    let nargs = inputs.len() as int;
    match spec_args(program, inputs, inputs.len()) {
        Err(e) => Err(e),
        Ok(arg_tys) => match spec_type_kind(program, program.sigs[sig as int].output) {
            Err(e) => Err(e),
            Ok(ret_kind) => if 1 + nargs + mir.var_count > mir.local_decls.len() {
                Err(ErrorKind::UnsupportedPlace)
            } else {
                let vars = mir.local_decls@.subrange(1 + nargs, 1 + nargs + mir.var_count);
                let temps = mir.local_decls@.subrange(
                    1 + nargs + mir.var_count,
                    mir.local_decls.len() as int,
                );
                match spec_locals(program, vars, inputs.len(), vars.len()) {
                    Err(e) => Err(e),
                    Ok(v) => match spec_locals(
                        program,
                        temps,
                        inputs.len() + v.tys.len(),
                        temps.len(),
                    ) {
                        Err(e) => Err(e),
                        Ok(t) => {
                            let locals = arg_tys + v.tys + t.tys;
                            let ret = spec_ret(ret_kind);
                            let with_ret = match ret {
                                Some(ty) => locals.push(ty),
                                None => locals,
                            };
                            let next = with_ret.len();
                            Ok(
                                Frame {
                                    slots: Slots {
                                        num_args: inputs.len(),
                                        ret_var: match ret {
                                            Some(_) => Some(locals.len() as usize),
                                            None => None,
                                        },
                                        var_map: v.map,
                                        temp_map: t.map,
                                        checked_op_local: Some((next + 2) as usize),
                                    },
                                    tys: with_ret.push(ReprType::Int32).push(
                                        ReprType::Int32,
                                    ).push(ReprType::Int64),
                                    sp_local: next as usize,
                                    relooper_local: (next + 1) as usize,
                                    ret,
                                    ret_kind,
                                },
                            )
                        },
                    },
                }
            },
        },
    }
}

proof fn lemma_locals_fails(program: &Program, decls: Seq<LocalDecl>, base: nat, n: nat, m: nat)
    requires
        n <= m,
        spec_locals(program, decls, base, n) is Err,
    ensures
        spec_locals(program, decls, base, m) == spec_locals(program, decls, base, n),
    decreases m,
{
    if n < m {
        lemma_locals_fails(program, decls, base, n, (m - 1) as nat);
    }
}

/// Creates the slots of the locals `mir.local_decls[from..to]` and
/// appends to `map` the slot of each.
fn create_locals(
    program: &Program,
    mir: &Mir,
    from: usize,
    to: usize,
    func: &mut Fn,
    map: &mut Vec<Option<usize>>,
) -> (r: Result<(), ErrorKind>)
    requires
        from <= to <= mir.local_decls.len(),
        old(func).wf(),
        old(map)@.len() == 0,
    ensures
        final(func).wf(),
        final(func).arg_count() == old(func).arg_count(),
        match r {
            Ok(()) => {
                let spec = spec_locals(
                    program,
                    mir.local_decls@.subrange(from as int, to as int),
                    old(func).vars().len(),
                    (to - from) as nat,
                );
                &&& spec is Ok
                &&& final(map)@ == spec->Ok_0.map
                &&& final(func).var_tys() == old(func).var_tys() + spec->Ok_0.tys
            },
            Err(e) => spec_locals(
                program,
                mir.local_decls@.subrange(from as int, to as int),
                old(func).vars().len(),
                (to - from) as nat,
            ) == Err::<LocalSlots, ErrorKind>(e),
        },
{
    let ghost decls = mir.local_decls@.subrange(from as int, to as int);
    let ghost base = func.vars().len();
    let ghost tys0 = func.var_tys();
    let mut i: usize = from;
    proof {
        assert(func.var_tys() =~= tys0 + Seq::<ReprType>::empty());
    }
    while i < to
        invariant
            from <= i <= to <= mir.local_decls.len(),
            decls == mir.local_decls@.subrange(from as int, to as int),
            func.wf(),
            func.arg_count() == old(func).arg_count(),
            spec_locals(program, decls, base, (i - from) as nat) is Ok,
            map@ == spec_locals(program, decls, base, (i - from) as nat)->Ok_0.map,
            func.var_tys() == tys0 + spec_locals(program, decls, base, (i - from) as nat)->Ok_0.tys,
            tys0.len() == base,
            base == old(func).vars().len(),
            tys0 == old(func).var_tys(),
            func.vars().len() == func.var_tys().len(),
        ensures
            i == to,
        decreases to - i,
    {
        let ghost next = spec_locals(program, decls, base, (i - from + 1) as nat);
        assert(decls[i - from] == mir.local_decls[i as int]);
        let kind = match type_kind(program, mir.local_decls[i].ty) {
            Ok(k) => k,
            Err(e) => {
                proof {
                    lemma_locals_fails(
                        program,
                        decls,
                        base,
                        (i - from + 1) as nat,
                        (to - from) as nat,
                    );
                }
                return Err(e);
            },
        };
        match rust_ty_to_builder(kind) {
            Some(ty) => {
                let var = func.create_local(ty).index();
                map.push(Some(var));
                proof {
                    assert(func.var_tys() =~= tys0 + next->Ok_0.tys);
                }
            },
            None => map.push(None),
        }
        i += 1;
    }
    Ok(())
}

impl BinaryenFnCtxt {
    /// Creates the slots of the function `did`, with the body `mir`, at the
    /// signature `sig`; see [`spec_frame`].
    pub fn new(program: &Program, module: &mut Module, mir: &Mir, did: DefId, sig: SigId) -> (r:
        Result<(BinaryenFnCtxt, FrameInfo), ErrorKind>)
        ensures
            *final(module) == *old(module),
            match r {
                Ok((fcx, info)) => {
                    let frame = spec_frame(program, mir, sig);
                    &&& frame is Ok
                    &&& sig < program.sigs.len()
                    &&& fcx@ == frame->Ok_0.slots
                    &&& fcx.did == did
                    &&& fcx.sig == sig
                    &&& fcx.func.wf()
                    &&& fcx.func.var_tys() == frame->Ok_0.tys
                    &&& fcx.func.arg_count() == frame->Ok_0.slots.num_args
                    &&& fcx.num_args == program.sigs[sig as int].inputs.len()
                    &&& fcx.num_args <= frame->Ok_0.tys.len()
                    &&& frame->Ok_0.tys.subrange(0, fcx.num_args as int) == spec_args(
                        program,
                        program.sigs[sig as int].inputs@,
                        program.sigs[sig as int].inputs.len() as nat,
                    )->Ok_0
                    &&& info == frame->Ok_0.info()
                },
                Err(e) => spec_frame(program, mir, sig) == Err::<Frame, ErrorKind>(e),
            },
    {
        if sig >= program.sigs.len() {
            return Err(ErrorKind::UnsupportedCallee);
        }
        let mut func = module.create_func();
        let inputs = &program.sigs[sig].inputs;
        let nargs = inputs.len();
        // Translate arg and ret tys
        let mut i: usize = 0;
        proof {
            assert(func.var_tys() =~= Seq::<ReprType>::empty());
        }
        while i < nargs
            invariant
                i <= nargs == inputs.len(),
                sig < program.sigs.len(),
                inputs@ == program.sigs[sig as int].inputs@,
                *module == *old(module),
                func.wf(),
                !func.sealed(),
                func.arg_count() == i,
                spec_args(program, inputs@, i as nat) is Ok,
                func.var_tys() == spec_args(program, inputs@, i as nat)->Ok_0,
                func.vars().len() == i,
            ensures
                i == nargs,
            decreases nargs - i,
        {
            let ghost next = spec_args(program, inputs@, (i + 1) as nat);
            let kind = match type_kind(program, inputs[i]) {
                Ok(k) => k,
                Err(e) => {
                    proof {
                        lemma_args_fails(program, inputs@, (i + 1) as nat, nargs as nat);
                    }
                    return Err(e);
                },
            };
            match rust_ty_to_builder(kind) {
                Some(ty) => {
                    func.add_arg(ty);
                    proof {
                        assert(func.var_tys() =~= next->Ok_0);
                    }
                },
                None => {
                    proof {
                        lemma_args_fails(program, inputs@, (i + 1) as nat, nargs as nat);
                    }
                    return Err(ErrorKind::UnsupportedType);
                },
            }
            i += 1;
        }
        let ghost arg_tys = func.var_tys();
        let ret_kind = type_kind(program, program.sigs[sig].output)?;
        let needs_ret_var = match ret_kind {
            crate::mir::TyKind::Nil => false,
            crate::mir::TyKind::Never => false,
            _ => true,
        };
        let binaryen_ret = if needs_ret_var {
            rust_ty_to_builder(ret_kind)
        } else {
            None
        };
        // Create the vars.
        // Params and vars form the list of locals, both sharing the same index space.
        let ndecls = mir.local_decls.len();
        if ndecls == 0 || nargs > ndecls - 1 || mir.var_count > ndecls - 1 - nargs {
            return Err(ErrorKind::UnsupportedPlace);
        }
        let vars_from = 1 + nargs;
        let temps_from = vars_from + mir.var_count;
        let mut var_map: Vec<Option<usize>> = Vec::new();
        create_locals(program, mir, vars_from, temps_from, &mut func, &mut var_map)?;
        let mut temp_map: Vec<Option<usize>> = Vec::new();
        assert(func.vars().len() == func.var_tys().len());
        create_locals(program, mir, temps_from, ndecls, &mut func, &mut temp_map)?;
        let ghost locals = func.var_tys();
        let ret_var = match binaryen_ret {
            Some(ty) => Some(func.create_local(ty).index()),
            None => None,
        };
        let ghost with_ret = func.var_tys();
        // Function prologue: stack pointer local
        let stack_pointer_local = func.create_local(ReprType::Int32).index();
        // helper local for irreducible control flow
        let relooper_local = func.create_local(ReprType::Int32).index();
        // checked operation local for the intermediate result of a checked operation (double-width)
        let checked_op_local = func.create_local(ReprType::Int64).index();
        proof {
            let frame = spec_frame(program, mir, sig)->Ok_0;
            assert(locals.len() == func.vars().len() - 3 - (if binaryen_ret is Some {
                1int
            } else {
                0
            }));
            assert(with_ret =~= match binaryen_ret {
                Some(ty) => locals.push(ty),
                None => locals,
            });
            assert(func.var_tys() =~= with_ret.push(ReprType::Int32).push(ReprType::Int32).push(
                ReprType::Int64,
            ));
            assert(func.var_tys().subrange(0, nargs as int) =~= arg_tys);
        }
        Ok(
            (
                BinaryenFnCtxt {
                    did,
                    sig,
                    num_args: nargs,
                    func,
                    checked_op_local: Some(checked_op_local),
                    var_map,
                    temp_map,
                    ret_var,
                },
                FrameInfo {
                    sp_local: stack_pointer_local,
                    relooper_local,
                    ret: binaryen_ret,
                    ret_kind,
                },
            ),
        )
    }
}

} // verus!
