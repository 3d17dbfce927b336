//! The tracer: renders a snapshot of the engine state — the current
//! program position and instruction, and the full memory tape with the
//! active cell marked — as one ASCII line for diagnostic output.
//!
//! Rendering is pure: it reads the state and builds bytes, so the engine
//! can expose it from a shared reference and a caller may print the line
//! wherever it likes.

use vstd::prelude::*;
use crate::instruction::instruction_byte;
use crate::vm::VmState;

verus! {

/// The decimal digits of `n`, most significant first, as ASCII bytes.
pub open spec fn dec_rep(n: nat) -> Seq<u8>
    decreases n,
{
    if n < 10 {
        seq![(48 + n) as u8]
    } else {
        dec_rep(n / 10).push((48 + n % 10) as u8)
    }
}

/// `s` padded on the left with ASCII spaces to at least three bytes.
pub open spec fn pad3(s: Seq<u8>) -> Seq<u8> {
    if s.len() >= 3 {
        s
    } else if s.len() == 2 {
        seq![32u8] + s
    } else if s.len() == 1 {
        seq![32u8, 32u8] + s
    } else {
        seq![32u8, 32u8, 32u8]
    }
}

/// The cells `mem[from .. to]`, each padded to at least three bytes and
/// followed by a space.
pub open spec fn cells_render(mem: Seq<u8>, from: int, to: int) -> Seq<u8>
    decreases to - from,
{
    if to <= from {
        Seq::empty()
    } else {
        cells_render(mem, from, to - 1) + pad3(dec_rep(mem[to - 1] as nat)) + seq![32u8]
    }
}

/// One diagnostic line: the padded program cursor, a colon, the current
/// instruction's character, then every tape cell padded to three digits,
/// the active one marked with `@` in place of its trailing space.
pub open spec fn render_trace(s: VmState) -> Seq<u8> {
    pad3(dec_rep(s.pc as nat)) + seq![58u8, instruction_byte(s.prog[s.pc])] + cells_render(
        s.mem,
        0,
        s.mc,
    ) + pad3(dec_rep(s.cell() as nat)) + seq![64u8] + cells_render(
        s.mem,
        s.mc + 1,
        s.mem.len() as int,
    ) + seq![10u8]
}

/// How many digits a decimal rendering has, by the size of the number.
proof fn lemma_dec_rep_len(n: nat)
    ensures
        n < 10 ==> dec_rep(n).len() == 1,
        10 <= n < 100 ==> dec_rep(n).len() == 2,
        100 <= n ==> dec_rep(n).len() >= 3,
    decreases n,
{
    if n >= 10 {
        lemma_dec_rep_len(n / 10);
    }
}

/// Appends the decimal digits of `n`.
pub(crate) fn push_dec(out: &mut Vec<u8>, n: usize)
    ensures
        final(out)@ == old(out)@ + dec_rep(n as nat),
    decreases n,
{
    if n >= 10 {
        push_dec(out, n / 10);
        out.push(48 + (n % 10) as u8);
        proof {
            assert(out@ =~= old(out)@ + dec_rep(n as nat));
        }
    } else {
        out.push(48 + n as u8);
        proof {
            assert(out@ =~= old(out)@ + dec_rep(n as nat));
        }
    }
}

/// Appends `n` in decimal, padded on the left to at least three bytes.
pub(crate) fn push_dec_pad3(out: &mut Vec<u8>, n: usize)
    ensures
        final(out)@ == old(out)@ + pad3(dec_rep(n as nat)),
{
    proof {
        lemma_dec_rep_len(n as nat);
    }
    if n < 10 {
        out.push(32);
        out.push(32);
    } else if n < 100 {
        out.push(32);
    }
    push_dec(out, n);
    proof {
        assert(out@ =~= old(out)@ + pad3(dec_rep(n as nat)));
    }
}

} // verus!
