//! The state of the lowering of one function: which slot each local of the
//! body lives in.

use vstd::prelude::*;
use crate::binaryen::builder::Fn;
use crate::error::ErrorKind;
use crate::mir::{DefId, SigId};

verus! {

/// The lowering of one function in progress.
///
/// `func` holds the slots created so far. The maps give, for each user
/// variable and each temporary of the body in declaration order, the slot
/// it lives in, or `None` where values of its type are not representable.
/// `ret_var` is the slot of the return value, if the function returns one.
/// `checked_op_local` is the 64-bit scratch slot of checked arithmetic.
pub struct BinaryenFnCtxt {
    pub did: DefId,
    pub sig: SigId,
    pub num_args: usize,
    pub func: Fn,
    pub checked_op_local: Option<usize>,
    pub var_map: Vec<Option<usize>>,
    pub temp_map: Vec<Option<usize>>,
    pub ret_var: Option<usize>,
}

/// The slot assignment of a function, as a mathematical value.
pub ghost struct Slots {
    pub num_args: nat,
    pub ret_var: Option<usize>,
    pub var_map: Seq<Option<usize>>,
    pub temp_map: Seq<Option<usize>>,
    pub checked_op_local: Option<usize>,
}

impl View for BinaryenFnCtxt {
    type V = Slots;

    open spec fn view(&self) -> Slots {
        Slots {
            num_args: self.num_args as nat,
            ret_var: self.ret_var,
            var_map: self.var_map@,
            temp_map: self.temp_map@,
            checked_op_local: self.checked_op_local,
        }
    }
}

/// The slot of the local with index `i`.
///
/// Local 0 is the return value. Locals `1..=num_args` are the parameters,
/// in slots `0..num_args`. Then come the user variables and after them the
/// temporaries, each in the slot its map gives. `Ok(None)` is a local
/// without a slot; an index past the last temporary names no local.
pub open spec fn spec_local_index(s: Slots, i: nat) -> Result<Option<usize>, ErrorKind> {
    if i == 0 {
        Ok(s.ret_var)
    } else if i - 1 < s.num_args {
        Ok(Some((i - 1) as usize))
    } else if i - 1 - s.num_args < s.var_map.len() {
        Ok(s.var_map[i - 1 - s.num_args])
    } else if i - 1 - s.num_args - s.var_map.len() < s.temp_map.len() {
        Ok(s.temp_map[i - 1 - s.num_args - s.var_map.len()])
    } else {
        Err(ErrorKind::UnsupportedPlace)
    }
}

impl BinaryenFnCtxt {
    pub fn num_args(&self) -> (r: usize)
        ensures
            r == self@.num_args,
    {
        self.num_args
    }

    pub fn get_local_index(&self, i: usize) -> (r: Result<Option<usize>, ErrorKind>)
        ensures
            r == spec_local_index(self@, i as nat),
    {
        if i == 0 {
            return Ok(self.ret_var);
        }
        let i = i - 1;
        if i < self.num_args() {
            return Ok(Some(i));
        }
        let i = i - self.num_args();
        if i < self.var_map.len() {
            return Ok(self.var_map[i]);
        }
        let i = i - self.var_map.len();
        if i < self.temp_map.len() {
            return Ok(self.temp_map[i]);
        }
        Err(ErrorKind::UnsupportedPlace)
    }
}

} // verus!
