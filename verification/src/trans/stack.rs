//! The stack in linear memory.
//!
//! One word of linear memory, at [`STACK_POINTER_ADDRESS`], holds the stack
//! pointer. A frame is allocated by moving the pointer down; nothing is ever
//! given back but by restoring a saved pointer.

use vstd::prelude::*;
use super::context::BinaryenFnCtxt;
use crate::binaryen::builder::ReprType;
use crate::binaryen::ir::{
    binary, get_local, int32, lemma_views_push, load, store, tee_local, views, BinaryOp, Expr,
    ExprView, Literal,
};

verus! {

/// The address in linear memory where the stack pointer is stored.
pub const STACK_POINTER_ADDRESS: i32 = 0;

/// The address of the stack pointer, as an instruction.
pub open spec fn spec_sp() -> ExprView {
    ExprView::Const(Literal::Int32(STACK_POINTER_ADDRESS))
}

/// The instruction that reads the stack pointer.
pub open spec fn spec_read_sp() -> ExprView {
    ExprView::Load {
        bytes: 4,
        signed: false,
        offset: 0,
        align: 0,
        ty: Some(ReprType::Int32),
        ptr: Box::new(spec_sp()),
    }
}

/// The instruction that writes the 32-bit `value` to the stack pointer.
pub open spec fn spec_write_sp(value: ExprView) -> ExprView {
    ExprView::Store {
        bytes: 4,
        offset: 0,
        align: 0,
        ptr: Box::new(spec_sp()),
        value: Box::new(value),
        ty: Some(ReprType::Int32),
    }
}

/// The allocation of a frame of `size_bits / 8` bytes: the stack pointer
/// less that many bytes is written to the slot `dest` and to the stack
/// pointer.
pub open spec fn spec_alloca(dest: usize, size_bits: u32) -> ExprView {
    spec_write_sp(
        ExprView::TeeLocal {
            index: dest,
            value: Box::new(
                ExprView::Binary {
                    op: BinaryOp::SubInt32,
                    left: Box::new(spec_read_sp()),
                    right: Box::new(ExprView::Const(Literal::Int32((size_bits / 8) as i32))),
                },
            ),
        },
    )
}

/// The write of the 32-bit `value` at `offset` bytes into the frame the
/// stack pointer points to.
pub open spec fn spec_store_field(offset: u32, value: ExprView) -> ExprView {
    ExprView::Store {
        bytes: 4,
        offset,
        align: 0,
        ptr: Box::new(spec_read_sp()),
        value: Box::new(value),
        ty: Some(ReprType::Int32),
    }
}

/// The width in bytes of the next piece of a copy of `left` bytes: the
/// largest of 8, 4, 2 and 1 that is not more than `left`.
pub open spec fn spec_chunk(left: nat) -> u32 {
    if left >= 8 {
        8
    } else if left >= 4 {
        4
    } else if left >= 2 {
        2
    } else {
        1
    }
}

/// The copy of one piece of `size` bytes at `offset` from the address in
/// the slot `src` to the frame the stack pointer points to.
pub open spec fn spec_copy_chunk(src: usize, size: u32, offset: u32) -> ExprView {
    ExprView::Store {
        bytes: size,
        offset,
        align: 0,
        ptr: Box::new(spec_read_sp()),
        value: Box::new(
            ExprView::Load {
                bytes: size,
                signed: false,
                offset,
                align: 0,
                ty: if size == 8 {
                    Some(ReprType::Int64)
                } else {
                    Some(ReprType::Int32)
                },
                ptr: Box::new(ExprView::GetLocal { index: src, ty: Some(ReprType::Int32) }),
            },
        ),
        ty: Some(ReprType::Int64),
    }
}

/// The copy of `left` bytes from `offset` on, piece by piece, each piece
/// as wide as [`spec_chunk`] says.
pub open spec fn spec_copy(src: usize, left: nat, offset: nat) -> Seq<ExprView>
    decreases left,
{
    if left == 0 {
        Seq::empty()
    } else {
        let size = spec_chunk(left);
        seq![spec_copy_chunk(src, size, offset as u32)] + spec_copy(
            src,
            (left - size) as nat,
            offset + size as nat,
        )
    }
}

fn chunk(left: u32) -> (r: u32)
    requires
        left > 0,
    ensures
        r == spec_chunk(left as nat),
        r <= left,
{
    if left >= 8 {
        8
    } else if left >= 4 {
        4
    } else if left >= 2 {
        2
    } else {
        1
    }
}

impl BinaryenFnCtxt {
    pub fn emit_sp(&self) -> (r: Expr)
        ensures
            r@ == spec_sp(),
    {
        int32(STACK_POINTER_ADDRESS)
    }

    pub fn emit_read_sp(&self) -> (r: Expr)
        ensures
            r@ == spec_read_sp(),
    {
        load(4, false, 0, 0, Some(ReprType::Int32), self.emit_sp())
    }

    /// Allocates a frame; see [`spec_alloca`].
    pub fn emit_alloca(&self, dest: usize, dest_size: u32) -> (r: Expr)
        ensures
            r@ == spec_alloca(dest, dest_size),
    {
        let read_sp = self.emit_read_sp();
        let dest_size = int32((dest_size / 8) as i32);
        let decr_sp = binary(BinaryOp::SubInt32, read_sp, dest_size);
        let write_local = tee_local(dest, decr_sp);
        let write_sp = store(4, 0, 0, self.emit_sp(), write_local, Some(ReprType::Int32));
        write_sp
    }

    /// Appends to `statements` the copy of `size` bytes from the address in
    /// the slot `src` to the frame the stack pointer points to.
    pub fn emit_copy(&self, src: usize, size: u32, statements: &mut Vec<Expr>)
        ensures
            views(final(statements)@) == views(old(statements)@) + spec_copy(src, size as nat, 0),
    {
        let mut bytes_to_copy = size;
        let mut offset: u32 = 0;
        proof {
            assert(views(statements@) + spec_copy(src, size as nat, 0) =~= views(old(statements)@)
                + spec_copy(src, size as nat, 0));
        }
        while bytes_to_copy > 0
            invariant
                offset + bytes_to_copy == size,
                views(statements@) + spec_copy(src, bytes_to_copy as nat, offset as nat) == views(
                    old(statements)@,
                ) + spec_copy(src, size as nat, 0),
            decreases bytes_to_copy,
        {
            let size = chunk(bytes_to_copy);
            let ty = if size == 8 {
                Some(ReprType::Int64)
            } else {
                Some(ReprType::Int32)
            };
            let ptr = get_local(src, Some(ReprType::Int32));
            let read_bytes = load(size, false, offset, 0, ty, ptr);
            let copy_bytes = store(
                size,
                offset,
                0,
                self.emit_read_sp(),
                read_bytes,
                Some(ReprType::Int64),
            );
            proof {
                lemma_views_push(statements@, copy_bytes);
                let rest = spec_copy(src, (bytes_to_copy - size) as nat, (offset + size) as nat);
                assert(views(statements@).push(copy_bytes@) + rest =~= views(statements@) + (
                seq![copy_bytes@] + rest));
            }
            statements.push(copy_bytes);
            bytes_to_copy -= size;
            offset += size;
        }
        proof {
            assert(views(statements@) + Seq::<ExprView>::empty() =~= views(statements@));
        }
    }
}

} // verus!
