use debug_target::run_args::{fuse_run_params, run_args, split_run_args};
use debug_target::text::{
    is_same_name, is_white_space, join, parse_usize, split, to_decimal, to_upper, trim,
};
use debug_target::Table;

#[test]
fn upper_case_is_ascii_alone() {
    assert_eq!(to_upper("aZ\u{e4}-z1"), "AZ\u{e4}-Z1");
    assert!(is_same_name("WIN64x", "win64X"));
    assert!(!is_same_name("\u{e4}", "\u{c4}"));
    assert!(!is_same_name("a", "aa"));
}

#[test]
fn white_space_is_that_of_unicode() {
    for code in 0..=0x10ffff_u32 {
        if let Some(c) = char::from_u32(code) {
            assert_eq!(is_white_space(c), c.is_whitespace(), "{code:x}");
        }
    }
    assert_eq!(trim(" \u{a0}\ta b\u{3000}\r\n"), "a b");
    assert_eq!(trim(" \t"), "");
}

#[test]
fn lists_split_and_join() {
    assert_eq!(split("a;;b;", ';'), vec!["a", "", "b", ""]);
    assert_eq!(split("", ';'), vec![""]);
    assert_eq!(join(&vec!["a".to_string(), "b".to_string(), String::new()], "; "), "a; b; ");
    assert_eq!(join(&Vec::new(), "; "), "");
}

#[test]
fn numbers_are_written_and_read() {
    for n in [0, 9, 10, 290, usize::MAX] {
        assert_eq!(to_decimal(n), n.to_string());
        assert_eq!(parse_usize(&to_decimal(n)), Some(n));
    }
    for text in ["", "+", "-1", "1_0", "0x1", "18446744073709551616", " 1"] {
        assert_eq!(parse_usize(text), text.parse::<usize>().ok(), "{text}");
    }
    assert_eq!(parse_usize("+007"), Some(7));
}

#[test]
fn a_command_line_splits_at_white_space_outside_of_quotes() {
    assert_eq!(split_run_args("  -a  \"b c\" d\"e f\"g "), vec!["-a", "b c", "de fg"]);
    assert_eq!(split_run_args("\"\""), vec![""]);
    assert_eq!(split_run_args("\"open end"), vec!["open end"]);
    assert!(split_run_args(" \t ").is_empty());
}

#[test]
fn run_parameters_of_the_dproj_come_first() {
    let some = |s: &str| Some(s.to_string());
    assert_eq!(fuse_run_params(&some("-a"), &some("-b")), some("-a -b"));
    assert_eq!(fuse_run_params(&some("-a"), &None), some("-a"));
    assert_eq!(fuse_run_params(&None, &some("-b")), some("-b"));
    assert_eq!(fuse_run_params(&None, &None), None);
    assert_eq!(run_args(&some("-a"), &some("-b")), vec!["-a", "-b"]);
    assert!(run_args(&None, &None).is_empty());
}

#[test]
fn the_last_value_of_a_name_counts() {
    let mut table: Table<String> = Table { pairs: Vec::new() };
    table.pairs.push(("a".to_string(), "1".to_string()));
    table.pairs.push(("a".to_string(), "2".to_string()));
    assert_eq!(table.get("a"), Some(&"2".to_string()));
    table.insert("a".to_string(), "3".to_string());
    assert_eq!(table.get("a"), Some(&"3".to_string()));
    table.remove_name("a");
    assert_eq!(table.get("a"), None);
    table.insert("Ab".to_string(), "4".to_string());
    table.insert("aB".to_string(), "5".to_string());
    table.insert("c".to_string(), "6".to_string());
    table.remove_spellings("AB");
    assert_eq!((table.get("Ab"), table.get("aB")), (None, None));
    assert_eq!(table.get("c"), Some(&"6".to_string()));
}
