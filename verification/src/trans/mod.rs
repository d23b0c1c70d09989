//! The lowering pass.
//!
//! [`trans_crate`] lowers a program into a module. What is done with the
//! finished module is decided by [`final_steps`] and carried out by the
//! caller.
//!
//! The pass in parts: `types` maps source types to those of the target;
//! `frame` and `context` lay out the slots of a function; `place` resolves
//! storage locations; `stack` holds the stack in linear memory; `operand`,
//! `assign` and `block` lower operands, assignments and basic blocks;
//! `calls` says what a call calls; `edges` turns terminators into control
//! edges; `emit` adds a finished function to the module; `module` lowers
//! functions depth first, with its caches under the keys of `cache`.
//! `function` and
//! `lowering` say what all of this yields, and `laws`, `lowering_laws` and
//! `machine_laws` hold what is proved of it.

use vstd::prelude::*;
use vstd::string::StringExecFns;
use crate::binaryen::builder::{MemoryView, Module, ModuleView};
use crate::binaryen::ir::{lemma_views_push, views};
use crate::error::{ErrorKind, TransError};
use crate::mir::{DefId, Program};

pub mod assign;
pub mod block;
pub mod cache;
pub mod calls;
pub mod context;
pub mod edges;
pub mod emit;
pub mod frame;
pub mod function;
pub mod laws;
pub mod lowering;
pub mod lowering_laws;
pub mod machine_laws;
pub mod module;
pub mod names;
pub mod operand;
pub mod place;
pub mod stack;
pub mod types;

use cache::{has_key, Key};
use function::genuine;
use lowering::{spec_trans, Lowering};
use module::{function_is, BinaryenModuleCtxt};

verus! {

/// What is to be done with the finished module.
#[derive(Clone, Debug, PartialEq, Eq)]
pub struct WasmTransOptions {
    pub optimize: bool,
    pub interpret: bool,
    pub print: bool,
    pub trace: bool,
    pub binary_output_path: Option<String>,
}

impl WasmTransOptions {
    /// The options by default: the module is printed, and nothing else.
    pub fn new() -> (r: WasmTransOptions)
        ensures
            !r.optimize,
            !r.interpret,
            r.print,
            !r.trace,
            r.binary_output_path is None,
    {
        WasmTransOptions {
            optimize: false,
            interpret: false,
            print: true,
            trace: false,
            binary_output_path: None,
        }
    }
}

/// A step that the caller takes on the finished module.
#[derive(Clone, Debug, PartialEq, Eq)]
pub enum FinalStep {
    Optimize,
    /// Ends the tracing of calls into the code generator.
    TraceOff,
    Print,
    Interpret,
    /// Writes the serialized module to the file at this path.
    Write(String),
}

pub ghost enum FinalStepView {
    Optimize,
    TraceOff,
    Print,
    Interpret,
    Write(Seq<char>),
}

impl View for FinalStep {
    type V = FinalStepView;

    open spec fn view(&self) -> FinalStepView {
        match self {
            FinalStep::Optimize => FinalStepView::Optimize,
            FinalStep::TraceOff => FinalStepView::TraceOff,
            FinalStep::Print => FinalStepView::Print,
            FinalStep::Interpret => FinalStepView::Interpret,
            FinalStep::Write(path) => FinalStepView::Write(path@),
        }
    }
}

/// The steps on a valid module, in order: it is optimized if asked;
/// tracing ends if it was on; the module is printed if asked and not
/// interpreted; it is interpreted if asked; it is written if there is a
/// path to write it to.
pub open spec fn spec_final_steps(options: &WasmTransOptions) -> Seq<FinalStepView> {
    let a = if options.optimize {
        seq![FinalStepView::Optimize]
    } else {
        Seq::empty()
    };
    let b = if options.trace {
        seq![FinalStepView::TraceOff]
    } else {
        Seq::empty()
    };
    let c = if options.print && !options.interpret {
        seq![FinalStepView::Print]
    } else {
        Seq::empty()
    };
    let d = if options.interpret {
        seq![FinalStepView::Interpret]
    } else {
        Seq::empty()
    };
    let e = match options.binary_output_path {
        Some(path) => seq![FinalStepView::Write(path@)],
        None => Seq::empty(),
    };
    a + b + c + d + e
}

/// Decides what is done with the finished module, given whether the
/// validator of the code generator accepted it. A module that is not valid
/// is a defect of the lowering: nothing is done with it.
pub fn final_steps(options: &WasmTransOptions, valid: bool) -> (r: Result<
    Vec<FinalStep>,
    ErrorKind,
>)
    ensures
        match r {
            Ok(steps) => valid && views(steps@) == spec_final_steps(options),
            Err(e) => !valid && e == ErrorKind::InvalidModule,
        },
{
    if !valid {
        return Err(ErrorKind::InvalidModule);
    }
    let mut steps: Vec<FinalStep> = Vec::new();
    assert(views(steps@) =~= Seq::<FinalStepView>::empty());
    if options.optimize {
        proof {
            lemma_views_push(steps@, FinalStep::Optimize);
        }
        steps.push(FinalStep::Optimize);
    }
    if options.trace {
        proof {
            lemma_views_push(steps@, FinalStep::TraceOff);
        }
        steps.push(FinalStep::TraceOff);
    }
    if options.print && !options.interpret {
        proof {
            lemma_views_push(steps@, FinalStep::Print);
        }
        steps.push(FinalStep::Print);
    }
    if options.interpret {
        proof {
            lemma_views_push(steps@, FinalStep::Interpret);
        }
        steps.push(FinalStep::Interpret);
    }
    match &options.binary_output_path {
        Some(output) => {
            let step = FinalStep::Write(output.clone());
            proof {
                lemma_views_push(steps@, step);
            }
            steps.push(step);
        },
        None => {},
    }
    assert(views(steps@) =~= spec_final_steps(options));
    Ok(steps)
}

/// Whether the lowering starts from the definition `did` of its own
/// accord: the definition has a body, no link metadata and no type
/// parameters.
pub open spec fn visitable(program: &Program, did: DefId) -> bool {
    &&& did < program.defs.len()
    &&& !program.defs[did as int].generic
    &&& program.defs[did as int].mir is Some
    &&& program.defs[did as int].link is None
}

/// Whether the functions of the module `m` are lowered from the keys
/// `keys`, position by position: each function with a key is the function
/// that its key is lowered to, and no two functions have the same key.
pub open spec fn lowered(
    program: &Program,
    entry_fn: Option<DefId>,
    m: ModuleView,
    keys: Seq<Option<Key>>,
) -> bool {
    &&& keys.len() == m.functions.len()
    &&& forall|j: int|
        0 <= j < keys.len() ==> match #[trigger] keys[j] {
            Some((did, sig)) => function_is(program, entry_fn, m, j, did, sig),
            None => true,
        }
    &&& forall|j: int, k: int|
        0 <= j < k < keys.len() && (#[trigger] keys[j]) is Some ==> keys[j] != #[trigger] keys[k]
}

/// The state after the definition `did` was visited: it is lowered at its
/// declared signature, if the lowering starts from it.
pub open spec fn spec_visit_fn(
    program: &Program,
    entry_fn: Option<DefId>,
    st: Lowering,
    did: DefId,
) -> Result<Lowering, TransError> {
    if visitable(program, did) {
        spec_trans(program, entry_fn, st, did, program.defs[did as int].sig)
    } else {
        Ok(st)
    }
}

/// The state after the first `n` definitions of the program were visited,
/// in order.
pub open spec fn spec_visit_krate(
    program: &Program,
    entry_fn: Option<DefId>,
    st: Lowering,
    n: nat,
) -> Result<Lowering, TransError>
    decreases n,
{
    if n == 0 {
        Ok(st)
    } else {
        match spec_visit_krate(program, entry_fn, st, (n - 1) as nat) {
            Err(e) => Err(e),
            Ok(before) => spec_visit_fn(program, entry_fn, before, (n - 1) as usize),
        }
    }
}

/// Once the visit of the first `n` definitions fails, that of the first
/// `m` fails in the same way, for every `m` from `n` on.
pub proof fn lemma_visit_fails(
    program: &Program,
    entry_fn: Option<DefId>,
    st: Lowering,
    n: nat,
    m: nat,
)
    requires
        n <= m,
        spec_visit_krate(program, entry_fn, st, n) is Err,
    ensures
        spec_visit_krate(program, entry_fn, st, m) == spec_visit_krate(program, entry_fn, st, n),
    decreases m,
{
    if n < m {
        lemma_visit_fails(program, entry_fn, st, n, (m - 1) as nat);
    }
}

/// The state a lowering into the module `m` starts from: no key is met.
pub open spec fn spec_start(m: ModuleView) -> Lowering {
    Lowering { names: Seq::empty(), types: Map::empty(), module: m }
}

impl BinaryenModuleCtxt {
    /// Lowers the definition `did` at its declared signature, if the
    /// lowering starts from it; see [`spec_visit_fn`].
    pub fn visit_fn(&mut self, program: &Program, did: DefId) -> (r: Result<(), TransError>)
        requires
            old(self).inv(program),
        ensures
            final(self).inv(program),
            final(self).extends(old(self)),
            final(self).fresh(old(self)),
            !visitable(program, did) ==> r is Ok && *final(self) == *old(self),
            match r {
                Ok(()) => {
                    &&& visitable(program, did) ==> has_key(final(self).met@, (did, program.defs[did as int].sig))
                    &&& spec_visit_fn(program, old(self).entry_fn, old(self)@, did) == Ok::<
                        Lowering,
                        TransError,
                    >(final(self)@)
                },
                Err(e) => {
                    &&& genuine(program, old(self).entry_fn, e)
                    &&& spec_visit_fn(program, old(self).entry_fn, old(self)@, did) == Err::<
                        Lowering,
                        TransError,
                    >(e)
                },
            },
    {
        if did >= program.defs.len() {
            return Ok(());
        }
        // don't translate generic functions yet
        if program.defs[did].generic {
            return Ok(());
        }
        if program.defs[did].mir.is_none() || program.defs[did].link.is_some() {
            return Ok(());
        }
        let sig = program.defs[did].sig;
        self.trans(program, did, sig)
    }
}

/// Lowers into `module` every definition the lowering starts from, in the
/// order of the program, and with each the functions it calls; see
/// [`spec_visit_krate`].
pub fn visit_krate(program: &Program, module: Module, entry_fn: Option<DefId>) -> (r: Result<
    Module,
    TransError,
>)
    ensures
        match r {
            Ok(m) => {
                let spec = spec_visit_krate(
                    program,
                    entry_fn,
                    spec_start(module@),
                    program.defs.len() as nat,
                );
                &&& spec is Ok
                &&& m@ == spec->Ok_0.module
                &&& m@.auto_drop == module@.auto_drop
                &&& exists|keys: Seq<Option<Key>>|
                    {
                        &&& lowered(program, entry_fn, m@, keys)
                        &&& forall|j: int|
                            0 <= j < module@.functions.len() ==> m@.functions[j]
                                == module@.functions[j] && (#[trigger] keys[j]) is None
                    }
            },
            Err(e) => {
                &&& genuine(program, entry_fn, e)
                &&& spec_visit_krate(
                    program,
                    entry_fn,
                    spec_start(module@),
                    program.defs.len() as nat,
                ) == Err::<Lowering, TransError>(e)
            },
        },
{
    let mut context = BinaryenModuleCtxt::new(module, entry_fn);
    let ghost start = context;
    let mut did: usize = 0;
    proof {
        assert(context@.names =~= Seq::<Key>::empty());
        assert(context@.types =~= Map::<crate::mir::SigId, usize>::empty());
    }
    while did < program.defs.len()
        invariant
            did <= program.defs.len(),
            spec_visit_krate(program, entry_fn, spec_start(module@), did as nat) == Ok::<
                Lowering,
                TransError,
            >(context@),
            context.inv(program),
            context.extends(&start),
            context.entry_fn == entry_fn,
            start.module == module,
            start.translated@ == Seq::new(module@.functions.len(), |j: int| None::<Key>),
        decreases program.defs.len() - did,
    {
        let ghost before = context;
        match context.visit_fn(program, did) {
            Ok(()) => {
                proof {
                    module::lemma_extends_trans(&start, &before, &context);
                }
            },
            Err(e) => {
                proof {
                    lemma_visit_fails(
                        program,
                        entry_fn,
                        spec_start(module@),
                        (did + 1) as nat,
                        program.defs.len() as nat,
                    );
                }
                return Err(e);
            },
        }
        did += 1;
    }
    proof {
        let keys = context.translated@;
        assert(lowered(program, entry_fn, context.module@, keys));
        assert forall|j: int| 0 <= j < module@.functions.len() implies context.module@.functions[j]
            == module@.functions[j] && (#[trigger] keys[j]) is None by {
            assert(keys[j] == start.translated@[j]);
        }
    }
    Ok(context.module)
}

/// The module a lowering starts from: values left unused are dropped, and
/// the linear memory has 256 pages, exported as `memory`.
pub open spec fn spec_initial_module() -> ModuleView {
    ModuleView {
        auto_drop: true,
        memory: Some(
            MemoryView { initial: 256, maximum: 256, export_name: Some("memory"@) },
        ),
        ..ModuleView::empty()
    }
}

/// The module that the program is lowered to, where `entry_fn` is its
/// entry point: the one that the visit of all its definitions leaves, from
/// the module a lowering starts from.
pub open spec fn spec_trans_crate(program: &Program, entry_fn: Option<DefId>) -> Result<
    ModuleView,
    TransError,
> {
    match spec_visit_krate(
        program,
        entry_fn,
        spec_start(spec_initial_module()),
        program.defs.len() as nat,
    ) {
        Ok(st) => Ok(st.module),
        Err(e) => Err(e),
    }
}

/// Lowers the program into a new module, where `entry_fn` is its entry
/// point; see [`spec_trans_crate`].
///
/// Every function of the module but the start routine is the function that
/// some definition is lowered to at some signature, and no two are lowered
/// from the same definition and signature. A failure names a function whose
/// lowering fails in the way it says.
pub fn trans_crate(program: &Program, entry_fn: Option<DefId>) -> (r: Result<Module, TransError>)
    ensures
        match r {
            Ok(m) => {
                &&& spec_trans_crate(program, entry_fn) == Ok::<ModuleView, TransError>(m@)
                &&& m@.auto_drop
                &&& exists|keys: Seq<Option<Key>>| lowered(program, entry_fn, m@, keys)
            },
            Err(e) => {
                &&& spec_trans_crate(program, entry_fn) == Err::<ModuleView, TransError>(e)
                &&& genuine(program, entry_fn, e)
            },
        },
{
    let mut module = Module::new();
    module.auto_drop();
    module.set_memory_raw(256, 256, Some(String::from_str("memory")));
    visit_krate(program, module, entry_fn)
}

} // verus!
