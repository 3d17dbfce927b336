//! The instruction set and the parser.
//!
//! Each instruction has a canonical single-character form, used both when
//! parsing source text and when rendering diagnostics.  Every character
//! outside the table is commentary and is dropped by the parser.

use vstd::prelude::*;

verus! {

/// One instruction of the language.  Immutable once parsed; carries no
/// payload.
#[derive(Debug, Clone, Copy, PartialEq, Eq, Structural)]
pub enum Instruction {
    /// `>`: move the memory cursor one cell to the right.
    Right,
    /// `<`: move the memory cursor one cell to the left.
    Left,
    /// `+`: increment the cell at the memory cursor, wrapping modulo 256.
    Inc,
    /// `-`: decrement the cell at the memory cursor, wrapping modulo 256.
    Dec,
    /// `.`: emit the cell at the memory cursor to the output sink.
    Put,
    /// `,`: read one byte from the input source into the current cell.
    Get,
    /// `[`: loop begin; skips past the matching `]` when the cell is zero.
    Begin,
    /// `]`: loop end; jumps back just past the matching `[` when the cell
    /// is non-zero.
    End,
}

/// The canonical character of an instruction.
pub open spec fn instruction_char(i: Instruction) -> char {
    match i {
        Instruction::Right => '>',
        Instruction::Left => '<',
        Instruction::Inc => '+',
        Instruction::Dec => '-',
        Instruction::Put => '.',
        Instruction::Get => ',',
        Instruction::Begin => '[',
        Instruction::End => ']',
    }
}

/// The ASCII byte of an instruction's canonical character.
pub open spec fn instruction_byte(i: Instruction) -> u8 {
    match i {
        Instruction::Right => 62,
        Instruction::Left => 60,
        Instruction::Inc => 43,
        Instruction::Dec => 45,
        Instruction::Put => 46,
        Instruction::Get => 44,
        Instruction::Begin => 91,
        Instruction::End => 93,
    }
}

/// The instruction a source character stands for, or `None` for a
/// commentary character.
pub open spec fn char_instruction(c: char) -> Option<Instruction> {
    if c == '>' {
        Some(Instruction::Right)
    } else if c == '<' {
        Some(Instruction::Left)
    } else if c == '+' {
        Some(Instruction::Inc)
    } else if c == '-' {
        Some(Instruction::Dec)
    } else if c == '.' {
        Some(Instruction::Put)
    } else if c == ',' {
        Some(Instruction::Get)
    } else if c == '[' {
        Some(Instruction::Begin)
    } else if c == ']' {
        Some(Instruction::End)
    } else {
        None
    }
}

/// The instruction sequence denoted by a source text: the recognized
/// characters mapped in order, all others dropped.
pub open spec fn parse_spec(s: Seq<char>) -> Seq<Instruction>
    decreases s.len(),
{
    if s.len() == 0 {
        Seq::empty()
    } else {
        parse_spec(s.drop_last()) + (match char_instruction(s.last()) {
            Some(i) => seq![i],
            None => Seq::empty(),
        })
    }
}

/// The canonical rendering of an instruction sequence, one character per
/// instruction.
pub open spec fn render_spec(p: Seq<Instruction>) -> Seq<char>
    decreases p.len(),
{
    if p.len() == 0 {
        Seq::empty()
    } else {
        render_spec(p.drop_last()).push(instruction_char(p.last()))
    }
}

impl Instruction {
    /// The canonical single-character form, used for diagnostics and
    /// round-tripping through the parser.
    pub fn to_char(&self) -> (c: char)
        ensures
            c == instruction_char(*self),
    {
        match self {
            Instruction::Right => '>',
            Instruction::Left => '<',
            Instruction::Inc => '+',
            Instruction::Dec => '-',
            Instruction::Put => '.',
            Instruction::Get => ',',
            Instruction::Begin => '[',
            Instruction::End => ']',
        }
    }

    /// The ASCII byte of the canonical character; used by the tracer.
    pub fn to_byte(&self) -> (b: u8)
        ensures
            b == instruction_byte(*self),
    {
        match self {
            Instruction::Right => 62,
            Instruction::Left => 60,
            Instruction::Inc => 43,
            Instruction::Dec => 45,
            Instruction::Put => 46,
            Instruction::Get => 44,
            Instruction::Begin => 91,
            Instruction::End => 93,
        }
    }
}

/// Maps one source character to its instruction; commentary characters map
/// to `None`.
pub fn parse_char(character: char) -> (r: Option<Instruction>)
    ensures
        r == char_instruction(character),
{
    match character {
        '>' => Some(Instruction::Right),
        '<' => Some(Instruction::Left),
        '+' => Some(Instruction::Inc),
        '-' => Some(Instruction::Dec),
        '.' => Some(Instruction::Put),
        ',' => Some(Instruction::Get),
        '[' => Some(Instruction::Begin),
        ']' => Some(Instruction::End),
        _ => None,
    }
}

/// Parses a source text into its instruction sequence, preserving order and
/// silently dropping every unrecognized character.
pub fn parse(code: &str) -> (program: Vec<Instruction>)
    ensures
        program@ == parse_spec(code@),
{
    let n = code.unicode_len();
    let mut program: Vec<Instruction> = Vec::new();
    let mut i: usize = 0;
    while i < n
        invariant
            i <= n,
            n == code@.len(),
            program@ == parse_spec(code@.take(i as int)),
        decreases n - i,
    {
        let c = code.get_char(i);
        proof {
            assert(code@.take(i + 1).drop_last() =~= code@.take(i as int));
            assert(code@.take(i + 1).last() == c);
        }
        if let Some(instruction) = parse_char(c) {
            program.push(instruction);
        }
        proof {
            assert(program@ =~= parse_spec(code@.take(i + 1)));
        }
        i = i + 1;
    }
    proof {
        assert(code@.take(n as int) =~= code@);
    }
    program
}

/// Law: each instruction's canonical character parses back to exactly that
/// instruction.
pub proof fn lemma_char_roundtrip(i: Instruction)
    ensures
        char_instruction(instruction_char(i)) == Some(i),
{
}

/// Law: rendering a parsed instruction sequence back to its canonical
/// characters and reparsing yields the original sequence.
pub proof fn lemma_render_reparse(p: Seq<Instruction>)
    ensures
        parse_spec(render_spec(p)) == p,
    decreases p.len(),
{
    if p.len() == 0 {
        assert(parse_spec(render_spec(p)) =~= p);
    } else {
        lemma_render_reparse(p.drop_last());
        let s = render_spec(p);
        assert(s.drop_last() =~= render_spec(p.drop_last()));
        lemma_char_roundtrip(p.last());
        assert(parse_spec(s) =~= p);
    }
}

} // verus!

