use bf_interpreter::instruction::parse;
use bf_interpreter::instruction::Instruction;
use bf_interpreter::pointed::PointedVec;
use bf_interpreter::vm::BFVM;

#[test]
fn pointed_vec_works() {
    let mut pv = PointedVec::new(vec![1, 2, 3]);
    assert_eq!(pv.read(), 1);
    pv.right();
    assert_eq!(pv.read(), 2);
    pv.left();
    assert_eq!(pv.read(), 1);
    pv.update(100);
    assert_eq!(pv.read(), 100);
}

#[test]
fn pointed_vec_absolute_access() {
    let mut pv = PointedVec::new(vec![7u8, 8, 9]);
    assert_eq!(pv.at(2), 9);
    pv.put_at(2, 42);
    assert_eq!(pv.at(2), 42);
    assert_eq!(pv.read(), 7);
}

#[test]
fn parse_works() {
    assert_eq!(
        parse("+-><test test.,[]"),
        [
            Instruction::Inc,
            Instruction::Dec,
            Instruction::Right,
            Instruction::Left,
            Instruction::Put,
            Instruction::Get,
            Instruction::Begin,
            Instruction::End,
        ]
    );
}

#[test]
fn parse_empty_and_comments() {
    assert_eq!(parse(""), []);
    assert_eq!(parse("just a comment"), []);
    assert_eq!(parse("stop here."), [Instruction::Put]);
}

#[test]
fn render_reparse_roundtrip() {
    let program = parse("+-><.,[]");
    let mut rendered = String::new();
    for instruction in program.iter() {
        rendered.push(instruction.to_char());
    }
    assert_eq!(rendered, "+-><.,[]");
    assert_eq!(parse(&rendered), program);
}

#[test]
fn vm_works() {
    let sum_of_ten = parse("++++++++++ [[>+>+<<-] >>[<<+>>-] <<-]");
    let mut vm = BFVM::new(sum_of_ten, false);
    vm.run(Vec::new(), 1_000_000).unwrap();
    assert_eq!(vm.memory_at(1), 55);
}
