//! The execution engine: a dual-cursor machine over one program buffer and
//! one fixed-size memory tape.
//!
//! The machine's behaviour is pinned by the spec function [`step_spec`]: one
//! fetch-execute step over the mathematical state [`VmState`].  Loops are
//! implemented by a linear-scan bracket matcher ([`match_forward`],
//! [`match_backward`]) that re-scans the program on every boundary crossing
//! instead of precomputing a jump table.

use vstd::prelude::*;
use crate::instruction::Instruction;
use crate::pointed::PointedVec;
use crate::trace::cells_render;
use crate::trace::push_dec_pad3;
use crate::trace::render_trace;

verus! {

/// The number of cells on the memory tape.
pub const MEMSIZE: usize = 20;

/// Why a run aborted.  Every failure is fatal: the machine stops at the
/// state it had before the failing step.
#[derive(Debug, Clone, Copy, PartialEq, Eq, Structural)]
pub enum VmError {
    /// The memory cursor would have moved left of the first cell or right
    /// of the last cell.
    OutOfBounds,
    /// A bracket's matching scan exhausted the program without finding the
    /// matching bracket.
    UnbalancedBracket,
    /// An input instruction executed with no byte left in the input source.
    InputExhausted,
}

/// The mathematical state of the machine: the program and its cursor, the
/// memory tape and its cursor, and the input and output streams.
#[verifier::ext_equal]
pub ghost struct VmState {
    /// The instruction sequence, immutable during execution.
    pub prog: Seq<Instruction>,
    /// The program cursor.
    pub pc: int,
    /// The memory tape.
    pub mem: Seq<u8>,
    /// The memory cursor.
    pub mc: int,
    /// The input source, given in full up front.
    pub input: Seq<u8>,
    /// How many input bytes have been consumed.
    pub ipos: int,
    /// Everything emitted so far.
    pub output: Seq<u8>,
}

impl VmState {
    /// Execution is finished exactly when the program cursor has passed the
    /// end of the instruction sequence.
    pub open spec fn finished(self) -> bool {
        self.pc >= self.prog.len()
    }

    /// The cell at the memory cursor.
    pub open spec fn cell(self) -> u8 {
        self.mem[self.mc]
    }

    /// Structural validity: both cursors inside their buffers, the tape at
    /// its fixed size, no input consumed beyond its end.
    pub open spec fn wf(self) -> bool {
        &&& 0 <= self.pc <= self.prog.len()
        &&& self.mem.len() == MEMSIZE
        &&& 0 <= self.mc < self.mem.len()
        &&& 0 <= self.ipos <= self.input.len()
    }

    /// The same state about to run on a fresh input source.
    pub open spec fn with_input(self, inp: Seq<u8>) -> VmState {
        VmState { input: inp, ipos: 0, ..self }
    }
}

/// A cell value incremented with wrap-around modulo 256.
pub open spec fn inc_wrap(v: u8) -> u8 {
    (((v as int) + 1) % 256) as u8
}

/// A cell value decremented with wrap-around modulo 256.
pub open spec fn dec_wrap(v: u8) -> u8 {
    (((v as int) + 255) % 256) as u8
}

/// The program cursor just past the `loop-end` matching an executed
/// `loop-begin`: scanning forward from `i` with `depth` unmatched
/// `loop-begin`s already passed, or `None` when the program is exhausted
/// first.
pub open spec fn match_forward(p: Seq<Instruction>, i: int, depth: int) -> Option<int>
    decreases p.len() - i,
{
    if i < 0 || i >= p.len() {
        None
    } else if p[i] == Instruction::End && depth == 0 {
        Some(i + 1)
    } else {
        match_forward(
            p,
            i + 1,
            if p[i] == Instruction::End {
                depth - 1
            } else if p[i] == Instruction::Begin {
                depth + 1
            } else {
                depth
            },
        )
    }
}

/// The program cursor just past the `loop-begin` matching an executed
/// `loop-end`: scanning backward from `i` with `depth` unmatched
/// `loop-end`s already passed, or `None` when the scan runs off the front
/// of the program.
pub open spec fn match_backward(p: Seq<Instruction>, i: int, depth: int) -> Option<int>
    decreases i + 1,
{
    if i < 0 || i >= p.len() {
        None
    } else if p[i] == Instruction::Begin && depth == 0 {
        Some(i + 1)
    } else {
        match_backward(
            p,
            i - 1,
            if p[i] == Instruction::Begin {
                depth - 1
            } else if p[i] == Instruction::End {
                depth + 1
            } else {
                depth
            },
        )
    }
}

/// One fetch-execute step from a non-finished state: the machine's
/// transition function.  `Err` leaves no trace: a failing step changes
/// nothing.
pub open spec fn step_spec(s: VmState) -> Result<VmState, VmError> {
    match s.prog[s.pc] {
        Instruction::Right => if s.mc + 1 < s.mem.len() {
            Ok(VmState { pc: s.pc + 1, mc: s.mc + 1, ..s })
        } else {
            Err(VmError::OutOfBounds)
        },
        Instruction::Left => if s.mc >= 1 {
            Ok(VmState { pc: s.pc + 1, mc: s.mc - 1, ..s })
        } else {
            Err(VmError::OutOfBounds)
        },
        Instruction::Inc => Ok(
            VmState { pc: s.pc + 1, mem: s.mem.update(s.mc, inc_wrap(s.cell())), ..s },
        ),
        Instruction::Dec => Ok(
            VmState { pc: s.pc + 1, mem: s.mem.update(s.mc, dec_wrap(s.cell())), ..s },
        ),
        Instruction::Put => Ok(VmState { pc: s.pc + 1, output: s.output.push(s.cell()), ..s }),
        Instruction::Get => if s.ipos < s.input.len() {
            Ok(
                VmState {
                    pc: s.pc + 1,
                    mem: s.mem.update(s.mc, s.input[s.ipos]),
                    ipos: s.ipos + 1,
                    ..s
                },
            )
        } else {
            Err(VmError::InputExhausted)
        },
        Instruction::Begin => if s.cell() != 0 {
            Ok(VmState { pc: s.pc + 1, ..s })
        } else {
            match match_forward(s.prog, s.pc + 1, 0) {
                Some(t) => Ok(VmState { pc: t, ..s }),
                None => Err(VmError::UnbalancedBracket),
            }
        },
        Instruction::End => if s.cell() == 0 {
            Ok(VmState { pc: s.pc + 1, ..s })
        } else {
            match match_backward(s.prog, s.pc - 1, 0) {
                Some(t) => Ok(VmState { pc: t, ..s }),
                None => Err(VmError::UnbalancedBracket),
            }
        },
    }
}

/// Runs up to `fuel` steps from `s`: `Ok` with the state reached when the
/// machine finishes or the fuel runs out, `Err` with the state before the
/// failing step and its error.
pub open spec fn run_spec(s: VmState, fuel: nat) -> Result<VmState, (VmState, VmError)>
    decreases fuel,
{
    if s.finished() || fuel == 0 {
        Ok(s)
    } else {
        match step_spec(s) {
            Ok(t) => run_spec(t, (fuel - 1) as nat),
            Err(e) => Err((s, e)),
        }
    }
}

/// A successful forward scan lands within the program, past its start.
proof fn lemma_match_forward_in_bounds(p: Seq<Instruction>, i: int, depth: int)
    requires
        0 <= i <= p.len(),
    ensures
        match match_forward(p, i, depth) {
            Some(t) => i < t <= p.len(),
            None => true,
        },
    decreases p.len() - i,
{
    if i < p.len() && !(p[i] == Instruction::End && depth == 0) {
        lemma_match_forward_in_bounds(
            p,
            i + 1,
            if p[i] == Instruction::End {
                depth - 1
            } else if p[i] == Instruction::Begin {
                depth + 1
            } else {
                depth
            },
        );
    }
}

/// A successful backward scan lands within the program, at or before the
/// cursor it started from.
proof fn lemma_match_backward_in_bounds(p: Seq<Instruction>, i: int, depth: int)
    requires
        i < p.len(),
    ensures
        match match_backward(p, i, depth) {
            Some(t) => 1 <= t <= i + 1,
            None => true,
        },
    decreases i + 1,
{
    if 0 <= i && !(p[i] == Instruction::Begin && depth == 0) {
        lemma_match_backward_in_bounds(
            p,
            i - 1,
            if p[i] == Instruction::Begin {
                depth - 1
            } else if p[i] == Instruction::End {
                depth + 1
            } else {
                depth
            },
        );
    }
}

/// Scans forward through the program for the `loop-end` matching the
/// `loop-begin` just before `start`, returning the cursor just past it.
fn scan_forward(p: &Vec<Instruction>, start: usize) -> (r: Option<usize>)
    requires
        start <= p@.len(),
    ensures
        r is Some <==> match_forward(p@, start as int, 0) is Some,
        r is Some ==> Some(r->0 as int) == match_forward(p@, start as int, 0),
{
    let mut i: usize = start;
    let mut depth: usize = 0;
    while i < p.len()
        invariant
            start <= i <= p@.len(),
            depth <= i - start,
            match_forward(p@, start as int, 0) == match_forward(p@, i as int, depth as int),
        decreases p@.len() - i,
    {
        let instruction = p[i];
        if instruction == Instruction::End {
            if depth == 0 {
                return Some(i + 1);
            }
            depth = depth - 1;
        } else if instruction == Instruction::Begin {
            depth = depth + 1;
        }
        i = i + 1;
    }
    None
}

/// Scans backward through the program for the `loop-begin` matching the
/// `loop-end` just after `start`, returning the cursor just past the
/// `loop-begin` found.
fn scan_backward(p: &Vec<Instruction>, start: usize) -> (r: Option<usize>)
    requires
        start < p@.len(),
    ensures
        r is Some <==> match_backward(p@, start as int, 0) is Some,
        r is Some ==> Some(r->0 as int) == match_backward(p@, start as int, 0),
{
    let n = p.len();
    let mut i: usize = start;
    let mut depth: usize = 0;
    loop
        invariant
            n == p@.len(),
            i <= start < n,
            depth <= start - i,
            match_backward(p@, start as int, 0) == match_backward(p@, i as int, depth as int),
        decreases i,
    {
        let instruction = p[i];
        if instruction == Instruction::Begin {
            if depth == 0 {
                return Some(i + 1);
            }
            depth = depth - 1;
        } else if instruction == Instruction::End {
            depth = depth + 1;
        }
        if i == 0 {
            proof {
                assert(match_backward(p@, -1, depth as int) is None);
            }
            return None;
        }
        i = i - 1;
    }
}

/// The execution engine: one program buffer and one memory tape, each with
/// its own cursor, an input source, an output sink, and a verbosity flag.
pub struct BFVM {
    program: PointedVec<Instruction>,
    memory: PointedVec<u8>,
    is_verbose: bool,
    input: Vec<u8>,
    input_pos: usize,
    output: Vec<u8>,
}

impl View for BFVM {
    type V = VmState;

    closed spec fn view(&self) -> VmState {
        VmState {
            prog: self.program.v@,
            pc: self.program.index as int,
            mem: self.memory.v@,
            mc: self.memory.index as int,
            input: self.input@,
            ipos: self.input_pos as int,
            output: self.output@,
        }
    }
}

impl BFVM {
    /// Structural validity of the engine's state.
    pub open spec fn wf(self) -> bool {
        self@.wf()
    }

    /// The verbosity flag fixed at construction time.
    pub closed spec fn verbose(self) -> bool {
        self.is_verbose
    }

    /// A fresh engine: the given program with its cursor at 0, a
    /// zero-initialized tape of `MEMSIZE` cells with its cursor at 0, an
    /// empty input source, and an empty output sink.
    pub fn new(program: Vec<Instruction>, is_verbose: bool) -> (vm: BFVM)
        ensures
            vm.wf(),
            vm@.prog == program@,
            vm@.pc == 0,
            vm@.mem.len() == MEMSIZE,
            forall|i: int| 0 <= i < MEMSIZE ==> vm@.mem[i] == 0,
            vm@.mc == 0,
            vm@.input == Seq::<u8>::empty(),
            vm@.ipos == 0,
            vm@.output == Seq::<u8>::empty(),
            vm.verbose() == is_verbose,
    {
        let mut cells: Vec<u8> = Vec::new();
        while cells.len() < MEMSIZE
            invariant
                cells@.len() <= MEMSIZE,
                forall|i: int| 0 <= i < cells@.len() ==> cells@[i] == 0,
            decreases MEMSIZE - cells@.len(),
        {
            cells.push(0);
        }
        BFVM {
            program: PointedVec::new(program),
            memory: PointedVec::new(cells),
            is_verbose,
            input: Vec::new(),
            input_pos: 0,
            output: Vec::new(),
        }
    }

    /// Whether the program cursor has passed the end of the program.
    pub fn is_finished(&self) -> (r: bool)
        ensures
            r == self@.finished(),
    {
        self.program.v.len() <= self.program.index
    }

    /// The cell at an absolute tape position, independent of the memory
    /// cursor; exposed for diagnostics and testing.
    pub fn memory_at(&self, i: usize) -> (r: u8)
        requires
            i < self@.mem.len(),
        ensures
            r == self@.mem[i as int],
    {
        self.memory.at(i)
    }

    /// The current program cursor; on an aborted run it identifies the
    /// offending instruction.
    pub fn program_pos(&self) -> (r: usize)
        ensures
            r as int == self@.pc,
    {
        self.program.index
    }

    /// Everything the machine has emitted so far.
    pub fn output(&self) -> (r: &Vec<u8>)
        ensures
            r@ == self@.output,
    {
        &self.output
    }

    /// Replaces the input source and rewinds its read position; a driver
    /// may feed input a piece at a time between steps this way.
    pub fn set_input(&mut self, input: Vec<u8>)
        ensures
            final(self)@ == old(self)@.with_input(input@),
            final(self).verbose() == old(self).verbose(),
    {
        let ghost inp = input@;
        self.input = input;
        self.input_pos = 0;
        proof {
            assert(self@ =~= old(self)@.with_input(inp));
        }
    }

    /// Renders the tracer's diagnostic line for the current state: the
    /// program cursor and its instruction, then the full tape with the
    /// active cell marked.  Pure diagnostic: the engine is not touched; a
    /// driver prints the line before each step when verbosity is on.
    #[verifier::loop_isolation(false)]
    pub fn show(&self) -> (line: Vec<u8>)
        requires
            self.wf(),
            !self@.finished(),
        ensures
            line@ == render_trace(self@),
    {
        let mut line: Vec<u8> = Vec::new();
        push_dec_pad3(&mut line, self.program.index);
        line.push(58);
        line.push(self.program.read().to_byte());
        let ghost header = line@;
        let mut i: usize = 0;
        proof {
            assert(line@ =~= header + cells_render(self.memory.v@, 0, 0));
        }
        while i < self.memory.index
            invariant
                i <= self.memory.index,
                line@ == header + cells_render(self.memory.v@, 0, i as int),
            decreases self.memory.index - i,
        {
            push_dec_pad3(&mut line, self.memory.at(i) as usize);
            line.push(32);
            i = i + 1;
            proof {
                assert(line@ =~= header + cells_render(self.memory.v@, 0, i as int));
            }
        }
        push_dec_pad3(&mut line, self.memory.read() as usize);
        line.push(64);
        let ghost mid = line@;
        let n = self.memory.v.len();
        let mut j: usize = self.memory.index + 1;
        proof {
            assert(line@ =~= mid + cells_render(self.memory.v@, j as int, j as int));
        }
        while j < n
            invariant
                self.memory.index + 1 <= j <= n,
                line@ == mid + cells_render(self.memory.v@, self.memory.index + 1, j as int),
            decreases n - j,
        {
            push_dec_pad3(&mut line, self.memory.at(j) as usize);
            line.push(32);
            j = j + 1;
            proof {
                assert(line@ =~= mid + cells_render(
                    self.memory.v@,
                    self.memory.index + 1,
                    j as int,
                ));
            }
        }
        line.push(10);
        proof {
            assert(line@ =~= render_trace(self@));
        }
        line
    }

    /// Executes the instruction at the program cursor: exactly one
    /// [`step_spec`] transition.  On an error the state is unchanged.
    pub fn issue(&mut self) -> (r: Result<(), VmError>)
        requires
            old(self).wf(),
            !old(self)@.finished(),
        ensures
            final(self).wf(),
            final(self).verbose() == old(self).verbose(),
            match step_spec(old(self)@) {
                Ok(t) => r == Ok::<(), VmError>(()) && final(self)@ == t,
                Err(e) => r == Err::<(), VmError>(e) && final(self)@ == old(self)@,
            },
    {
        let proglen = self.program.v.len();
        let instruction = self.program.read();
        match instruction {
            Instruction::Right => {
                if self.memory.index + 1 >= MEMSIZE {
                    return Err(VmError::OutOfBounds);
                }
                self.memory.right();
                self.program.right();
                Ok(())
            }
            Instruction::Left => {
                if self.memory.index == 0 {
                    return Err(VmError::OutOfBounds);
                }
                self.memory.left();
                self.program.right();
                Ok(())
            }
            Instruction::Inc => {
                let v = self.memory.read();
                let nv: u8 = if v == 255 { 0 } else { v + 1 };
                self.memory.update(nv);
                self.program.right();
                Ok(())
            }
            Instruction::Dec => {
                let v = self.memory.read();
                let nv: u8 = if v == 0 { 255 } else { v - 1 };
                self.memory.update(nv);
                self.program.right();
                Ok(())
            }
            Instruction::Put => {
                let v = self.memory.read();
                self.output.push(v);
                self.program.right();
                Ok(())
            }
            Instruction::Get => {
                if self.input_pos >= self.input.len() {
                    return Err(VmError::InputExhausted);
                }
                let b = self.input[self.input_pos];
                self.memory.update(b);
                self.input_pos = self.input_pos + 1;
                self.program.right();
                Ok(())
            }
            Instruction::Begin => {
                let start = self.program.index + 1;
                let v = self.memory.read();
                if v > 0 {
                    self.program.right();
                    return Ok(());
                }
                proof {
                    lemma_match_forward_in_bounds(self.program.v@, start as int, 0);
                }
                match scan_forward(&self.program.v, start) {
                    Some(t) => {
                        self.program.index = t;
                        Ok(())
                    }
                    None => Err(VmError::UnbalancedBracket),
                }
            }
            Instruction::End => {
                let v = self.memory.read();
                if v == 0 {
                    self.program.right();
                    return Ok(());
                }
                if self.program.index == 0 {
                    proof {
                        assert(match_backward(self.program.v@, -1, 0) is None);
                    }
                    return Err(VmError::UnbalancedBracket);
                }
                let start = self.program.index - 1;
                proof {
                    lemma_match_backward_in_bounds(self.program.v@, start as int, 0);
                }
                match scan_backward(&self.program.v, start) {
                    Some(t) => {
                        self.program.index = t;
                        Ok(())
                    }
                    None => Err(VmError::UnbalancedBracket),
                }
            }
        }
    }

    /// Drives execution for at most `max_steps` steps over the given input
    /// source: exactly [`run_spec`] on the starting state.  Returns
    /// `Ok(true)` when the program finished, `Ok(false)` when the step
    /// budget ran out first, and the error of the failing step otherwise,
    /// with the machine left at the state before that step.
    ///
    /// The language can loop forever, so the loop carries an explicit step
    /// budget; a caller that wants an unbounded run calls again while it
    /// gets `Ok(false)`.
    #[verifier::loop_isolation(false)]
    pub fn run(&mut self, input: Vec<u8>, max_steps: u64) -> (r: Result<bool, VmError>)
        requires
            old(self).wf(),
        ensures
            final(self).wf(),
            final(self).verbose() == old(self).verbose(),
            match run_spec(old(self)@.with_input(input@), max_steps as nat) {
                Ok(t) => r == Ok::<bool, VmError>(t.finished()) && final(self)@ == t,
                Err((t, e)) => r == Err::<bool, VmError>(e) && final(self)@ == t,
            },
    {
        let ghost inp = input@;
        self.input = input;
        self.input_pos = 0;
        let ghost s0 = self@;
        proof {
            assert(s0 =~= old(self)@.with_input(inp));
        }
        let mut steps: u64 = 0;
        while steps < max_steps && !self.is_finished()
            invariant
                self.wf(),
                steps <= max_steps,
                self.verbose() == old(self).verbose(),
                run_spec(s0, max_steps as nat) == run_spec(self@, (max_steps - steps) as nat),
            decreases max_steps - steps,
        {
            match self.issue() {
                Ok(()) => {
                    steps = steps + 1;
                }
                Err(e) => {
                    return Err(e);
                }
            }
        }
        Ok(self.is_finished())
    }
}

/// Law: the instruction sequence is immutable once execution starts — no
/// step changes it, so however far a run gets, the program it stops with
/// is the program it started with (and so is the input source).
pub proof fn lemma_run_preserves_program(s: VmState, fuel: nat)
    ensures
        match run_spec(s, fuel) {
            Ok(t) => t.prog == s.prog && t.input == s.input,
            Err((t, e)) => t.prog == s.prog && t.input == s.input,
        },
    decreases fuel,
{
    if !s.finished() && fuel != 0 {
        match step_spec(s) {
            Ok(t) => {
                lemma_run_preserves_program(t, (fuel - 1) as nat);
            }
            Err(e) => {
            }
        }
    }
}

/// Law: the forward scan of a `loop-begin` on a zero cell is a function of
/// the program text and the starting cursor alone.  Two machines that
/// agree on those — whatever their tapes, cursors or streams otherwise
/// hold — land on the same program cursor, or fail the same way: the scan
/// is deterministic and may be re-run from the same start at will.
pub proof fn lemma_begin_scan_deterministic(s1: VmState, s2: VmState)
    requires
        s1.prog == s2.prog,
        s1.pc == s2.pc,
        0 <= s1.pc < s1.prog.len(),
        s1.prog[s1.pc] == Instruction::Begin,
        s1.cell() == 0,
        s2.cell() == 0,
    ensures
        match (step_spec(s1), step_spec(s2)) {
            (Ok(t1), Ok(t2)) => t1.pc == t2.pc,
            (Err(e1), Err(e2)) => e1 == e2,
            _ => false,
        },
{
}

/// No forward scan can succeed over a stretch of program with no
/// `loop-end` in it.
proof fn lemma_match_forward_no_end(p: Seq<Instruction>, i: int, depth: int)
    requires
        forall|j: int| i <= j < p.len() ==> p[j] != Instruction::End,
    ensures
        match_forward(p, i, depth) is None,
    decreases p.len() - i,
{
    if 0 <= i && i < p.len() {
        lemma_match_forward_no_end(
            p,
            i + 1,
            if p[i] == Instruction::Begin {
                depth + 1
            } else {
                depth
            },
        );
    }
}

/// Law: a `loop-begin` executed on a zero cell with no `loop-end` anywhere
/// after it — such as a program consisting solely of `loop-begin` — fails
/// as an unbalanced bracket rather than looping or running out of the
/// program.
pub proof fn lemma_unmatched_begin(s: VmState)
    requires
        s.wf(),
        !s.finished(),
        s.prog[s.pc] == Instruction::Begin,
        s.cell() == 0,
        forall|j: int| s.pc < j < s.prog.len() ==> s.prog[j] != Instruction::End,
    ensures
        step_spec(s) == Err::<VmState, VmError>(VmError::UnbalancedBracket),
{
    lemma_match_forward_no_end(s.prog, s.pc + 1, 0);
}

/// Law: `move-left` with the memory cursor on the first cell aborts with
/// the memory-bounds failure and changes nothing.
pub proof fn lemma_move_left_bounds(s: VmState)
    requires
        s.wf(),
        !s.finished(),
        s.prog[s.pc] == Instruction::Left,
        s.mc == 0,
    ensures
        step_spec(s) == Err::<VmState, VmError>(VmError::OutOfBounds),
{
}

/// Law: `move-right` with the memory cursor on the last cell aborts with
/// the memory-bounds failure and changes nothing.
pub proof fn lemma_move_right_bounds(s: VmState)
    requires
        s.wf(),
        !s.finished(),
        s.prog[s.pc] == Instruction::Right,
        s.mc == s.mem.len() - 1,
    ensures
        step_spec(s) == Err::<VmState, VmError>(VmError::OutOfBounds),
{
}

} // verus!
