//! The machine's fixed-length buffers, each stored in a `smallvec::SmallVec`.
//!
//! Nothing here is proved. Every buffer type hides its `SmallVec`, a spec function names
//! the sequence of cells it holds, and each wrapper states what one `SmallVec` operation
//! does to that sequence. The rest of the crate reasons from these statements alone.

use smallvec::SmallVec;
use vstd::prelude::*;

verus! {

/// Addressable memory: a `SmallVec` with room for 4096 bytes inline.
#[derive(Debug)]
#[verifier::external_body]
pub struct Memory {
    cells: SmallVec<[u8; 4096]>,
}

/// A bank of byte cells, used for the registers and for the keypad: a `SmallVec` with room
/// for 16 bytes inline.
#[derive(Debug)]
#[verifier::external_body]
pub struct Bank {
    cells: SmallVec<[u8; 16]>,
}

/// The framebuffer: a `SmallVec` with room for 2048 one-byte pixels inline.
#[derive(Debug)]
#[verifier::external_body]
pub struct Screen {
    cells: SmallVec<[u8; 2048]>,
}

/// The call stack's slots: a `SmallVec` with room for 16 return addresses inline.
#[derive(Debug)]
#[verifier::external_body]
pub struct Stack {
    cells: SmallVec<[u16; 16]>,
}

/// The bytes that a memory buffer holds, in index order.
pub uninterp spec fn memory_cells(buf: Memory) -> Seq<u8>;

/// The bytes that a bank holds, in index order.
pub uninterp spec fn bank_cells(buf: Bank) -> Seq<u8>;

/// The pixels that a framebuffer holds, in index order.
pub uninterp spec fn screen_cells(buf: Screen) -> Seq<u8>;

/// The addresses that the stack's slots hold, in index order.
pub uninterp spec fn stack_cells(buf: Stack) -> Seq<u16>;

/// `SmallVec::from_elem(byte, n)`: the new buffer holds `n` cells, each equal to `byte`.
/// With `n` within the inline capacity nothing is allocated, so the call cannot fail.
#[verifier::external_body]
pub(crate) fn memory_filled(byte: u8, n: usize) -> (buf: Memory)
    requires
        n <= 4096,
    ensures
        memory_cells(buf) == Seq::new(n as nat, |i: int| byte),
{
    Memory { cells: SmallVec::from_elem(byte, n) }
}

/// Reading a `SmallVec` through its index operator: the cell at position `at`. The
/// operator panics past the end, which the precondition rules out.
#[verifier::external_body]
pub(crate) fn memory_read(buf: &Memory, at: usize) -> (byte: u8)
    requires
        at < memory_cells(*buf).len(),
    ensures
        byte == memory_cells(*buf)[at as int],
{
    buf.cells[at]
}

/// Assigning through a `SmallVec`'s index operator: position `at` now holds `byte`, every
/// other cell and the length are as before. The operator panics past the end, which the
/// precondition rules out.
#[verifier::external_body]
pub(crate) fn memory_write(buf: &mut Memory, at: usize, byte: u8)
    requires
        at < memory_cells(*old(buf)).len(),
    ensures
        memory_cells(*final(buf)) == memory_cells(*old(buf)).update(at as int, byte),
    no_unwind
{
    buf.cells[at] = byte;
}

/// `SmallVec::from_elem(byte, n)`: the new bank holds `n` cells, each equal to `byte`.
/// With `n` within the inline capacity nothing is allocated, so the call cannot fail.
#[verifier::external_body]
pub(crate) fn bank_filled(byte: u8, n: usize) -> (buf: Bank)
    requires
        n <= 16,
    ensures
        bank_cells(buf) == Seq::new(n as nat, |i: int| byte),
{
    Bank { cells: SmallVec::from_elem(byte, n) }
}

/// Reading a `SmallVec` through its index operator: the cell at position `at`. The
/// operator panics past the end, which the precondition rules out.
#[verifier::external_body]
pub(crate) fn bank_read(buf: &Bank, at: usize) -> (byte: u8)
    requires
        at < bank_cells(*buf).len(),
    ensures
        byte == bank_cells(*buf)[at as int],
{
    buf.cells[at]
}

/// Assigning through a `SmallVec`'s index operator: position `at` now holds `byte`, every
/// other cell and the length are as before. The operator panics past the end, which the
/// precondition rules out.
#[verifier::external_body]
pub(crate) fn bank_write(buf: &mut Bank, at: usize, byte: u8)
    requires
        at < bank_cells(*old(buf)).len(),
    ensures
        bank_cells(*final(buf)) == bank_cells(*old(buf)).update(at as int, byte),
    no_unwind
{
    buf.cells[at] = byte;
}

/// `SmallVec::from_elem(pixel, n)`: the new framebuffer holds `n` cells, each equal to
/// `pixel`. With `n` within the inline capacity nothing is allocated, so the call cannot
/// fail.
#[verifier::external_body]
pub(crate) fn screen_filled(pixel: u8, n: usize) -> (buf: Screen)
    requires
        n <= 2048,
    ensures
        screen_cells(buf) == Seq::new(n as nat, |i: int| pixel),
{
    Screen { cells: SmallVec::from_elem(pixel, n) }
}

/// Reading a `SmallVec` through its index operator: the cell at position `at`. The
/// operator panics past the end, which the precondition rules out.
#[verifier::external_body]
pub(crate) fn screen_read(buf: &Screen, at: usize) -> (pixel: u8)
    requires
        at < screen_cells(*buf).len(),
    ensures
        pixel == screen_cells(*buf)[at as int],
{
    buf.cells[at]
}

/// Assigning through a `SmallVec`'s index operator: position `at` now holds `pixel`, every
/// other cell and the length are as before. The operator panics past the end, which the
/// precondition rules out.
#[verifier::external_body]
pub(crate) fn screen_write(buf: &mut Screen, at: usize, pixel: u8)
    requires
        at < screen_cells(*old(buf)).len(),
    ensures
        screen_cells(*final(buf)) == screen_cells(*old(buf)).update(at as int, pixel),
    no_unwind
{
    buf.cells[at] = pixel;
}

/// `SmallVec::as_slice`: a borrowed slice of all the cells, in index order.
#[verifier::external_body]
pub(crate) fn screen_slice(buf: &Screen) -> (cells: &[u8])
    ensures
        cells@ == screen_cells(*buf),
{
    buf.cells.as_slice()
}

/// `SmallVec::from_elem(addr, n)`: the new stack holds `n` slots, each equal to `addr`.
/// With `n` within the inline capacity nothing is allocated, so the call cannot fail.
#[verifier::external_body]
pub(crate) fn stack_filled(addr: u16, n: usize) -> (buf: Stack)
    requires
        n <= 16,
    ensures
        stack_cells(buf) == Seq::new(n as nat, |i: int| addr),
{
    Stack { cells: SmallVec::from_elem(addr, n) }
}

/// Reading a `SmallVec` through its index operator: the slot at position `at`. The
/// operator panics past the end, which the precondition rules out.
#[verifier::external_body]
pub(crate) fn stack_read(buf: &Stack, at: usize) -> (addr: u16)
    requires
        at < stack_cells(*buf).len(),
    ensures
        addr == stack_cells(*buf)[at as int],
{
    buf.cells[at]
}

/// Assigning through a `SmallVec`'s index operator: position `at` now holds `addr`, every
/// other slot and the length are as before. The operator panics past the end, which the
/// precondition rules out.
#[verifier::external_body]
pub(crate) fn stack_write(buf: &mut Stack, at: usize, addr: u16)
    requires
        at < stack_cells(*old(buf)).len(),
    ensures
        stack_cells(*final(buf)) == stack_cells(*old(buf)).update(at as int, addr),
    no_unwind
{
    buf.cells[at] = addr;
}

} // verus!
