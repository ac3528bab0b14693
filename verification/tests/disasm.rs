use ch8disasm::config::Config;
use ch8disasm::config::InputOption;
use ch8disasm::config::OutputOption;
use ch8disasm::config::RunError;
use ch8disasm::convert_instruction;
use ch8disasm::disassemble;
use ch8disasm::frame;
use ch8disasm::ErrorKind;

#[test]
fn decode_cls() {
    assert_eq!(convert_instruction(0x00E0), "CLS");
}

#[test]
fn decode_ret() {
    assert_eq!(convert_instruction(0x00EE), "RET");
}

#[test]
fn decode_sys() {
    // top-nibble 0 that is not CLS/RET is SYS, even for 0x0000
    assert_eq!(convert_instruction(0x0FFF), "SYS 0xFFF");
    assert_eq!(convert_instruction(0x0000), "SYS 0x000");
}

#[test]
fn decode_jp() {
    assert_eq!(convert_instruction(0x1234), "JP 0x234");
}

#[test]
fn decode_call() {
    assert_eq!(convert_instruction(0x2ABC), "CALL 0xABC");
}

#[test]
fn decode_ld_i() {
    assert_eq!(convert_instruction(0xA01F), "LD I, 0x01F");
}

#[test]
fn decode_jp_v0() {
    assert_eq!(convert_instruction(0xB200), "JP V0, 0x200");
}

#[test]
fn decode_register_byte_forms() {
    assert_eq!(convert_instruction(0x3C0A), "SE VC, 0x0A");
    assert_eq!(convert_instruction(0x41FE), "SNE V1, 0xFE");
    assert_eq!(convert_instruction(0x6A07), "LD VA, 0x07");
    assert_eq!(convert_instruction(0x7005), "ADD V0, 0x05");
    assert_eq!(convert_instruction(0xC633), "RND V6, 0x33");
}

#[test]
fn decode_two_register_forms() {
    assert_eq!(convert_instruction(0x5120), "SE V1, V2");
    assert_eq!(convert_instruction(0x8AB0), "LD VA, VB");
    assert_eq!(convert_instruction(0x8121), "OR V1, V2");
    assert_eq!(convert_instruction(0x8342), "AND V3, V4");
    assert_eq!(convert_instruction(0x8563), "XOR V5, V6");
    assert_eq!(convert_instruction(0x8784), "ADD V7, V8");
    assert_eq!(convert_instruction(0x89A5), "SUB V9, VA");
    assert_eq!(convert_instruction(0x8CD7), "SUBN VC, VD");
    assert_eq!(convert_instruction(0x9EF0), "SNE VE, VF");
}

#[test]
fn decode_shifts_ignore_second_register() {
    assert_eq!(convert_instruction(0x8016), "SHR V0");
    assert_eq!(convert_instruction(0x8ABE), "SHL VA");
}

#[test]
fn decode_drw() {
    assert_eq!(convert_instruction(0xDAB4), "DRW VA, VB, 0x4");
}

#[test]
fn decode_skip_on_key_forms() {
    assert_eq!(convert_instruction(0xE29E), "SKP V2");
    assert_eq!(convert_instruction(0xE3A1), "SKNP V3");
}

#[test]
fn decode_low_byte_selected_forms() {
    assert_eq!(convert_instruction(0xF107), "LD V1, DT");
    assert_eq!(convert_instruction(0xF20A), "LD V2, K");
    assert_eq!(convert_instruction(0xF315), "LD DT, V3");
    assert_eq!(convert_instruction(0xF418), "LD ST, V4");
    assert_eq!(convert_instruction(0xF51E), "ADD I, V5");
    assert_eq!(convert_instruction(0xF629), "LD F, V6");
    assert_eq!(convert_instruction(0xF733), "LD B, V7");
    assert_eq!(convert_instruction(0xF855), "LD [I], V8");
    assert_eq!(convert_instruction(0xFF65), "LD VF, [I]");
}

#[test]
fn decode_fallback_is_raw_hex() {
    // no pattern matches these: 0xE with an unknown low byte, 0xF with an
    // unknown low byte, 0x5 and 0x8 with unmatched bottom nibbles
    assert_eq!(convert_instruction(0xE000), "0xE000");
    assert_eq!(convert_instruction(0xF0FF), "0xF0FF");
    assert_eq!(convert_instruction(0x5121), "0x5121");
    assert_eq!(convert_instruction(0x8AB8), "0x8AB8");
}

#[test]
fn decode_is_total_and_never_empty() {
    // every word in a sample across the whole space decodes to a non-empty line
    let mut w: u32 = 0;
    while w <= 0xFFFF {
        let line = convert_instruction(w as u16);
        assert!(!line.is_empty());
        w += 1;
    }
}

#[test]
fn frame_pairs_bytes_big_endian() {
    let words = frame(&vec![0x12, 0x34, 0xAB, 0xCD]).unwrap();
    assert_eq!(words, vec![0x1234, 0xABCD]);
}

#[test]
fn frame_round_trip() {
    let bytes: Vec<u8> = vec![0x00, 0xE0, 0x12, 0x34, 0xFF, 0x01];
    let words = frame(&bytes).unwrap();
    assert_eq!(words.len(), bytes.len() / 2);
    for (i, w) in words.iter().enumerate() {
        assert_eq!((w >> 8) as u8, bytes[2 * i]);
        assert_eq!((w & 0xFF) as u8, bytes[2 * i + 1]);
    }
}

#[test]
fn frame_rejects_empty_input() {
    assert_eq!(frame(&vec![]).unwrap_err(), ErrorKind::EmptyInput);
}

#[test]
fn frame_rejects_odd_length() {
    assert_eq!(frame(&vec![0x00]).unwrap_err(), ErrorKind::OddLength);
}

#[test]
fn disassemble_end_to_end() {
    let text = disassemble(vec![0x00, 0xE0, 0x00, 0xEE]).unwrap();
    assert_eq!(text, "CLS\nRET\n");
}

#[test]
fn disassemble_terminates_every_line() {
    let text = disassemble(vec![0x12, 0x34]).unwrap();
    assert_eq!(text, "JP 0x234\n");
}

#[test]
fn disassemble_rejects_empty_input() {
    assert_eq!(disassemble(vec![]).unwrap_err(), ErrorKind::EmptyInput);
}

#[test]
fn disassemble_rejects_odd_length() {
    assert_eq!(disassemble(vec![0x00, 0xE0, 0x00]).unwrap_err(), ErrorKind::OddLength);
}

#[test]
fn error_messages() {
    assert_eq!(ErrorKind::EmptyInput.message(), "Error parsing rom: empty rom");
    assert_eq!(
        ErrorKind::OddLength.message(),
        "Error parsing rom: uneven number of bytes"
    );
}

#[test]
fn config_make_selects_files() {
    let c = Config::make(Some(String::from("rom.ch8")), Some(String::from("out.txt")));
    match c.in_opt {
        InputOption::File(p) => assert_eq!(p, "rom.ch8"),
        InputOption::Stdin => panic!("expected a file input"),
    }
    match c.out_opt {
        OutputOption::File(p) => assert_eq!(p, "out.txt"),
        OutputOption::Stdout => panic!("expected a file output"),
    }
}

#[test]
fn config_make_defaults_to_standard_streams() {
    let c = Config::make(None, None);
    assert!(matches!(c.in_opt, InputOption::Stdin));
    assert!(matches!(c.out_opt, OutputOption::Stdout));
}

#[test]
fn run_error_conversions() {
    let e = RunError::from("some message");
    assert_eq!(e.msg, "some message");
    assert_eq!(RunError::from_io(true).msg, "File does not exist");
    assert_eq!(
        RunError::from_io(false).msg,
        "An unanticipated error was encountered while reading or writing to file"
    );
}
