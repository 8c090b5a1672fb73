use bytestack::{Fault, Input, Machine, Outcome};

/// How a run over in-memory streams ended.
#[derive(Debug, PartialEq, Eq)]
enum End {
    Halted,
    Failed(Fault),
    InputExhausted,
    StillRunning,
}

/// Runs `program` against `input`, for at most `limit` steps, and returns
/// what it wrote, how it ended and the machine as it was left.
fn run_for(program: &[u8], input: &[u8], limit: usize) -> (Vec<u8>, End, Machine) {
    let mut machine = Machine::from(program);
    let mut output: Vec<u8> = Vec::new();
    let mut unread = input;
    let mut handed = Input::Nothing;
    for _ in 0..limit {
        let outcome = match machine.step(&handed) {
            Ok(outcome) => outcome,
            Err(fault) => return (output, End::Failed(fault), machine),
        };
        handed = Input::Nothing;
        match outcome {
            Outcome::Continue => {}
            Outcome::Output(bytes) => output.extend_from_slice(&bytes),
            Outcome::Halt => return (output, End::Halted, machine),
            Outcome::AwaitByte => match unread.split_first() {
                Some((byte, rest)) => {
                    handed = Input::Byte(*byte);
                    unread = rest;
                }
                None => return (output, End::InputExhausted, machine),
            },
            Outcome::AwaitLine(prompt) => {
                output.extend_from_slice(&prompt);
                let end = match unread.iter().position(|b| *b == b'\n') {
                    Some(at) => at + 1,
                    None => unread.len(),
                };
                let (line, rest) = unread.split_at(end);
                handed = Input::Line(String::from_utf8(line.to_vec()).unwrap());
                unread = rest;
            }
        }
    }
    (output, End::StillRunning, machine)
}

fn run(program: &str, input: &[u8]) -> (Vec<u8>, End, Machine) {
    run_for(program.as_bytes(), input, 10_000)
}

/// What `program` writes when it runs to a halt without reading.
fn output_of(program: &str) -> String {
    let (output, end, _) = run(program, b"");
    assert_eq!(end, End::Halted, "program {:?}", program);
    String::from_utf8(output).unwrap()
}

#[test]
fn one_digit_is_printed() {
    assert_eq!(output_of("1o"), "1\n");
}

#[test]
fn program_ending_in_a_newline_halts_on_it() {
    assert_eq!(output_of("1o\n"), "1\n");
}

#[test]
fn two_nibbles_make_a_byte() {
    assert_eq!(output_of("12.o"), "18\n");
    assert_eq!(output_of("ff.o"), "255\n");
    assert_eq!(output_of("a0.o"), "160\n");
}

#[test]
fn three_plus_four_is_seven() {
    assert_eq!(output_of("34+o"), "7\n");
}

#[test]
fn not_of_zero_is_one() {
    assert_eq!(output_of("0!o"), "1\n");
    assert_eq!(output_of("1!o"), "0\n");
    assert_eq!(output_of("9!o"), "0\n");
}

#[test]
fn halt_alone_writes_nothing() {
    let (output, end, machine) = run("x", b"");
    assert_eq!(end, End::Halted);
    assert!(output.is_empty());
    assert_eq!(machine.pc(), 0);
    assert_eq!(machine.stack(), 0xff);
}

#[test]
fn unknown_byte_halts_like_halt() {
    let (output, end, machine) = run("q", b"");
    assert_eq!(end, End::Halted);
    assert!(output.is_empty());
    assert_eq!(machine.pc(), 0);
    assert_eq!(machine.stack(), 0xff);
}

#[test]
fn empty_program_halts_at_once() {
    let (output, end, machine) = run("", b"");
    assert_eq!(end, End::Halted);
    assert!(output.is_empty());
    assert_eq!(machine.pc(), 0);
}

#[test]
fn every_unrecognised_byte_halts() {
    let known = b"x0123456789abcdef.io:'\"@()+-*/%^!=<>~|&Xgjls";
    for byte in 0..=255u8 {
        if known.contains(&byte) {
            continue;
        }
        let mut machine = Machine::from(&[byte]);
        assert_eq!(machine.step(&Input::Nothing), Ok(Outcome::Halt), "byte {}", byte);
        assert_eq!(machine.pc(), 0);
        assert_eq!(machine.stack(), 0xff);
    }
}

#[test]
fn a_halted_machine_stays_halted() {
    let mut machine = Machine::from(b"1x2o");
    assert_eq!(machine.step(&Input::Nothing), Ok(Outcome::Continue));
    for _ in 0..5 {
        assert_eq!(machine.step(&Input::Nothing), Ok(Outcome::Halt));
        assert_eq!(machine.step(&Input::Byte(3)), Ok(Outcome::Halt));
        assert_eq!(machine.step(&Input::Line(String::from("4"))), Ok(Outcome::Halt));
        assert_eq!(machine.pc(), 1);
        assert_eq!(machine.stack(), 0xfe);
    }
}

#[test]
fn digits_push_their_value() {
    let digits = b"0123456789abcdef";
    for (value, digit) in digits.iter().enumerate() {
        let mut machine = Machine::from(&[*digit]);
        assert_eq!(machine.step(&Input::Nothing), Ok(Outcome::Continue));
        assert_eq!(machine.pc(), 1);
        assert_eq!(machine.pop(), value as u8);
    }
}

#[test]
fn upper_case_hex_digits_are_not_digits() {
    let mut machine = Machine::from(b"A");
    assert_eq!(machine.step(&Input::Nothing), Ok(Outcome::Halt));
    let mut machine = Machine::from(b"g");
    assert_eq!(machine.step(&Input::Nothing), Ok(Outcome::Continue));
}

#[test]
fn swap_exchanges_the_two_on_top() {
    for a in [0u8, 1, 7, 255] {
        for b in [0u8, 2, 9, 254] {
            let mut machine = Machine::from(b"@");
            machine.push(a);
            machine.push(b);
            assert_eq!(machine.step(&Input::Nothing), Ok(Outcome::Continue));
            assert_eq!(machine.pc(), 1);
            assert_eq!(machine.pop(), a);
            assert_eq!(machine.pop(), b);
            assert_eq!(machine.stack(), 0xff);
        }
    }
    assert_eq!(output_of("12@oo"), "1\n2\n");
}

#[test]
fn duplicate_leaves_two_copies() {
    for a in [0u8, 1, 128, 255] {
        let mut machine = Machine::from(b"(");
        machine.push(a);
        assert_eq!(machine.step(&Input::Nothing), Ok(Outcome::Continue));
        assert_eq!(machine.pop(), a);
        assert_eq!(machine.pop(), a);
        assert_eq!(machine.stack(), 0xff);
    }
    assert_eq!(output_of("7(oo"), "7\n7\n");
}

#[test]
fn drop_discards_the_top() {
    assert_eq!(output_of("12)o"), "1\n");
    let mut machine = Machine::from(b")");
    machine.push(5);
    assert_eq!(machine.step(&Input::Nothing), Ok(Outcome::Continue));
    assert_eq!(machine.stack(), 0xff);
    assert_eq!(machine.pc(), 1);
}

/// Runs the one instruction `op` on `a` pushed first and `b` pushed second,
/// and returns what it leaves on top.
fn binary(op: u8, a: u8, b: u8) -> u8 {
    let mut machine = Machine::from(&[op]);
    machine.push(a);
    machine.push(b);
    assert_eq!(machine.step(&Input::Nothing), Ok(Outcome::Continue));
    assert_eq!(machine.pc(), 1);
    assert_eq!(machine.stack(), 0xfe);
    machine.pop()
}

#[test]
fn addition_wraps() {
    assert_eq!(binary(b'+', 250, 10), 4);
    assert_eq!(binary(b'+', 255, 1), 0);
    assert_eq!(binary(b'+', 255, 255), 254);
    assert_eq!(binary(b'+', 0, 0), 0);
    assert_eq!(output_of("fa.0a.+o"), "4\n");
}

#[test]
fn subtraction_wraps() {
    assert_eq!(binary(b'-', 1, 2), 255);
    assert_eq!(binary(b'-', 0, 255), 1);
    assert_eq!(binary(b'-', 9, 4), 5);
    assert_eq!(output_of("12-o"), "255\n");
}

#[test]
fn multiplication_wraps() {
    assert_eq!(binary(b'*', 255, 2), 254);
    assert_eq!(binary(b'*', 16, 16), 0);
    assert_eq!(binary(b'*', 255, 255), 1);
    assert_eq!(binary(b'*', 6, 7), 42);
    assert_eq!(output_of("ff.2*o"), "254\n");
}

#[test]
fn power_wraps() {
    assert_eq!(binary(b'^', 2, 10), 0);
    assert_eq!(binary(b'^', 3, 5), 243);
    assert_eq!(binary(b'^', 3, 9), 227);
    assert_eq!(binary(b'^', 0, 0), 1);
    assert_eq!(binary(b'^', 0, 5), 0);
    assert_eq!(binary(b'^', 7, 0), 1);
    assert_eq!(binary(b'^', 255, 255), 255);
    assert_eq!(binary(b'^', 255, 254), 1);
    assert_eq!(output_of("2a^o"), "0\n");
}

#[test]
fn arithmetic_is_modulo_256_for_all_operands() {
    for a in 0..=255u8 {
        for b in 0..=255u8 {
            assert_eq!(binary(b'+', a, b) as u32, (a as u32 + b as u32) % 256);
            assert_eq!(binary(b'-', a, b) as i32, (a as i32 - b as i32).rem_euclid(256));
            assert_eq!(binary(b'*', a, b) as u32, (a as u32 * b as u32) % 256);
        }
    }
    for a in 0..=255u8 {
        let mut power: u32 = 1;
        for b in 0..=255u8 {
            assert_eq!(binary(b'^', a, b) as u32, power);
            power = power * a as u32 % 256;
        }
    }
}

#[test]
fn division_and_remainder() {
    assert_eq!(binary(b'/', 7, 2), 3);
    assert_eq!(binary(b'%', 7, 2), 1);
    assert_eq!(binary(b'/', 255, 16), 15);
    assert_eq!(binary(b'%', 255, 16), 15);
    assert_eq!(binary(b'/', 0, 9), 0);
    assert_eq!(binary(b'%', 3, 200), 3);
    assert_eq!(output_of("72/o"), "3\n");
    assert_eq!(output_of("72%o"), "1\n");
}

#[test]
fn division_by_zero_fails_and_changes_nothing() {
    for op in [b'/', b'%'] {
        for a in [0u8, 1, 200] {
            let mut machine = Machine::from(&[op]);
            machine.push(a);
            machine.push(0);
            for _ in 0..3 {
                assert_eq!(machine.step(&Input::Nothing), Err(Fault::DivisionByZero));
                assert_eq!(machine.step(&Input::Byte(1)), Err(Fault::DivisionByZero));
                assert_eq!(machine.pc(), 0);
                assert_eq!(machine.stack(), 0xfd);
                assert_eq!(machine.read(0xfe), 0);
                assert_eq!(machine.read(0xff), a);
            }
        }
    }
    let (output, end, machine) = run("5o10/o", b"");
    assert_eq!(output, b"5\n");
    assert_eq!(end, End::Failed(Fault::DivisionByZero));
    assert_eq!(machine.pc(), 4);
}

#[test]
fn comparisons_push_one_or_zero() {
    assert_eq!(binary(b'=', 3, 3), 1);
    assert_eq!(binary(b'=', 3, 4), 0);
    assert_eq!(binary(b'<', 3, 4), 1);
    assert_eq!(binary(b'<', 4, 3), 0);
    assert_eq!(binary(b'<', 4, 4), 0);
    assert_eq!(binary(b'>', 4, 3), 1);
    assert_eq!(binary(b'>', 3, 4), 0);
    assert_eq!(binary(b'>', 4, 4), 0);
    assert_eq!(binary(b'<', 1, 255), 1);
    assert_eq!(binary(b'>', 255, 1), 1);
    assert_eq!(output_of("12<o"), "1\n");
    assert_eq!(output_of("12>o"), "0\n");
    assert_eq!(output_of("11=o"), "1\n");
}

#[test]
fn bitwise_instructions() {
    assert_eq!(binary(b'|', 3, 5), 7);
    assert_eq!(binary(b'&', 3, 5), 1);
    assert_eq!(binary(b'X', 3, 5), 6);
    assert_eq!(binary(b'|', 0xf0, 0x0f), 0xff);
    assert_eq!(binary(b'&', 0xf0, 0x0f), 0);
    assert_eq!(binary(b'X', 0xff, 0x0f), 0xf0);
    assert_eq!(output_of("0~o"), "255\n");
    assert_eq!(output_of("ff.~o"), "0\n");
    assert_eq!(output_of("a5.~o"), "90\n");
}

#[test]
fn combine_keeps_the_low_four_bits_of_the_high_part() {
    assert_eq!(binary(b'.', 1, 2), 0x12);
    assert_eq!(binary(b'.', 0xff, 0), 0xf0);
    assert_eq!(binary(b'.', 0x12, 0x34), 0x34);
    assert_eq!(binary(b'.', 0, 0xff), 0xff);
}

#[test]
fn goto_sets_the_program_counter() {
    let mut machine = Machine::from(b"5g");
    assert_eq!(machine.step(&Input::Nothing), Ok(Outcome::Continue));
    assert_eq!(machine.step(&Input::Nothing), Ok(Outcome::Continue));
    assert_eq!(machine.pc(), 5);
    assert_eq!(machine.stack(), 0xff);
    assert_eq!(output_of("4gxx7o"), "7\n");
}

#[test]
fn goto_to_itself_does_not_move() {
    let mut machine = Machine::from(b"g");
    machine.push(0);
    assert_eq!(machine.step(&Input::Nothing), Ok(Outcome::Continue));
    assert_eq!(machine.pc(), 0);
}

#[test]
fn conditional_jump_taken() {
    let mut machine = Machine::from(b"j");
    machine.push(1);
    machine.push(9);
    assert_eq!(machine.step(&Input::Nothing), Ok(Outcome::Continue));
    assert_eq!(machine.pc(), 9);
    assert_eq!(machine.stack(), 0xff);
    assert_eq!(output_of("27jx1ox2o"), "2\n");
}

#[test]
fn conditional_jump_not_taken_moves_on_by_one() {
    let mut machine = Machine::from(b"j");
    machine.push(0);
    machine.push(9);
    assert_eq!(machine.step(&Input::Nothing), Ok(Outcome::Continue));
    assert_eq!(machine.pc(), 1);
    assert_eq!(machine.stack(), 0xff);
    assert_eq!(output_of("07j1ox2o"), "1\n");
}

#[test]
fn a_loop_counts_down() {
    // 3, then: duplicate, print, subtract one, duplicate, jump back while
    // the copy is not zero.
    assert_eq!(output_of("3(o1-(1jx"), "3\n2\n1\n");
}

#[test]
fn load_reads_the_code() {
    assert_eq!(output_of("0lo"), "48\n");
    assert_eq!(output_of("1lo"), "108\n");
    assert_eq!(output_of("9lo"), "0\n");
}

#[test]
fn store_writes_memory() {
    let mut machine = Machine::from(b"s");
    machine.push(0x5a);
    machine.push(0x80);
    assert_eq!(machine.step(&Input::Nothing), Ok(Outcome::Continue));
    assert_eq!(machine.read(0x80), 0x5a);
    assert_eq!(machine.pc(), 1);
    assert_eq!(machine.stack(), 0xff);
    assert_eq!(output_of("7a0.sa0.lo"), "7\n");
}

#[test]
fn stored_instruction_is_the_one_executed() {
    // The byte at address 6 is `x` when the program is loaded. The program
    // replaces it by `o` before the program counter gets there.
    assert_eq!(output_of("76f.6sx"), "7\n");
    assert_eq!(output_of("76f.7sx"), "");
    let mut machine = Machine::from(b"76f.6sx");
    for _ in 0..6 {
        assert_eq!(machine.step(&Input::Nothing), Ok(Outcome::Continue));
    }
    assert_eq!(machine.pc(), 6);
    assert_eq!(machine.read(6), b'o');
    assert_eq!(machine.step(&Input::Nothing), Ok(Outcome::Output(b"7\n".to_vec())));
}

#[test]
fn the_stack_can_overwrite_the_code() {
    // The second pop of `+` wraps to address 0 and reads the first
    // instruction as data; the sum is written over it.
    let (output, end, machine) = run("35.+o", b"");
    assert_eq!(output, b"104\n");
    assert_eq!(end, End::Halted);
    assert_eq!(machine.read(0), 104);
    assert_eq!(machine.stack(), 0);
}

#[test]
fn program_counter_wraps_from_255_to_0() {
    let mut machine = Machine::default();
    machine.write(255, b'0');
    machine.write(0, b'5');
    machine.jump(255);
    machine.pop();
    machine.pop();
    assert_eq!(machine.stack(), 1);
    assert_eq!(machine.step(&Input::Nothing), Ok(Outcome::Continue));
    assert_eq!(machine.pc(), 0);
    assert_eq!(machine.step(&Input::Nothing), Ok(Outcome::Continue));
    assert_eq!(machine.pc(), 1);
    assert_eq!(machine.pop(), 5);
    assert_eq!(machine.pop(), 0);
}

#[test]
fn decimal_output_has_no_padding() {
    assert_eq!(output_of("0o"), "0\n");
    assert_eq!(output_of("9o"), "9\n");
    assert_eq!(output_of("ao"), "10\n");
    assert_eq!(output_of("63.o"), "99\n");
    assert_eq!(output_of("64.o"), "100\n");
    assert_eq!(output_of("ff.o"), "255\n");
}

#[test]
fn raw_byte_output() {
    let (output, end, _) = run("41.'0a.'ff.'0'", b"");
    assert_eq!(end, End::Halted);
    assert_eq!(output, vec![0x41, 0x0a, 0xff, 0x00]);
}

#[test]
fn raw_byte_input_waits_and_then_pushes() {
    let mut machine = Machine::from(b":");
    assert_eq!(machine.step(&Input::Nothing), Ok(Outcome::AwaitByte));
    assert_eq!(machine.pc(), 0);
    assert_eq!(machine.stack(), 0xff);
    assert_eq!(machine.step(&Input::Line(String::from("7"))), Ok(Outcome::AwaitByte));
    assert_eq!(machine.pc(), 0);
    assert_eq!(machine.step(&Input::Byte(0xe9)), Ok(Outcome::Continue));
    assert_eq!(machine.pc(), 1);
    assert_eq!(machine.pop(), 0xe9);
}

#[test]
fn raw_bytes_are_echoed() {
    let (output, end, _) = run(":':':'", &[0x00, 0x0a, 0xff]);
    assert_eq!(end, End::Halted);
    assert_eq!(output, vec![0x00, 0x0a, 0xff]);
}

#[test]
fn raw_byte_input_at_the_end_of_the_stream() {
    let (output, end, machine) = run("1o:o", b"");
    assert_eq!(output, b"1\n");
    assert_eq!(end, End::InputExhausted);
    assert_eq!(machine.pc(), 2);
}

#[test]
fn line_input_prompts_and_then_pushes() {
    let mut machine = Machine::from(b"i");
    assert_eq!(machine.step(&Input::Nothing), Ok(Outcome::AwaitLine(b"> ".to_vec())));
    assert_eq!(machine.pc(), 0);
    assert_eq!(machine.stack(), 0xff);
    assert_eq!(machine.step(&Input::Byte(7)), Ok(Outcome::AwaitLine(b"> ".to_vec())));
    assert_eq!(machine.pc(), 0);
    assert_eq!(machine.step(&Input::Line(String::from("42\n"))), Ok(Outcome::Continue));
    assert_eq!(machine.pc(), 1);
    assert_eq!(machine.pop(), 42);
}

#[test]
fn a_number_read_is_printed_back() {
    let (output, end, _) = run("io", b"42\n");
    assert_eq!(end, End::Halted);
    assert_eq!(output, b"> 42\n");
}

#[test]
fn two_numbers_are_added() {
    let (output, end, _) = run("ii+o", b"200\n100\n");
    assert_eq!(end, End::Halted);
    assert_eq!(output, b"> > 44\n");
}

#[test]
fn a_line_that_is_no_number_fails() {
    for line in ["", "\n", "abc\n", "256\n", "-1\n", "1 2\n", "0x10\n", "1.5\n", "+\n"] {
        let mut machine = Machine::from(b"i");
        machine.push(9);
        let handed = Input::Line(String::from(line));
        assert_eq!(machine.step(&handed), Err(Fault::InvalidData), "line {:?}", line);
        assert_eq!(machine.pc(), 0);
        assert_eq!(machine.stack(), 0xfe);
        assert_eq!(machine.read(0xff), 9);
    }
    let (output, end, machine) = run("7oio", b"seven\n");
    assert_eq!(output, b"7\n> ");
    assert_eq!(end, End::Failed(Fault::InvalidData));
    assert_eq!(machine.pc(), 2);
}

#[test]
fn line_input_at_the_end_of_the_stream_fails() {
    let (output, end, _) = run("io", b"");
    assert_eq!(output, b"> ");
    assert_eq!(end, End::Failed(Fault::InvalidData));
}

#[test]
fn input_is_ignored_by_instructions_that_do_not_read() {
    for program in ["1", "12+", "12@", "5g", "0o", "x", "\""] {
        let mut plain = Machine::from(program.as_bytes());
        let mut with_byte = Machine::from(program.as_bytes());
        let mut with_line = Machine::from(program.as_bytes());
        for _ in 0..3 {
            let expected = plain.step(&Input::Nothing);
            assert_eq!(with_byte.step(&Input::Byte(0x33)), expected);
            assert_eq!(with_line.step(&Input::Line(String::from("12"))), expected);
            assert_eq!(with_byte.pc(), plain.pc());
            assert_eq!(with_line.stack(), plain.stack());
        }
    }
}

#[test]
fn an_endless_loop_keeps_running() {
    let (output, end, machine) = run_for(b"0g", b"", 1000);
    assert!(output.is_empty());
    assert_eq!(end, End::StillRunning);
    assert_eq!(machine.stack(), 0xff);
}

#[test]
fn dump_instruction_writes_the_picture_and_a_newline() {
    let mut machine = Machine::from(b"\"x");
    let mut expected = machine.dump();
    expected.push(b'\n');
    assert_eq!(machine.step(&Input::Nothing), Ok(Outcome::Output(expected)));
    assert_eq!(machine.pc(), 1);
    assert_eq!(machine.stack(), 0xff);
}
