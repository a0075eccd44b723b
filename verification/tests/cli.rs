use fhe_fibonacci::cli::{
    has_prefix_at, parse_arguments, parse_count, read_argument, same_text, strip_offset,
    Invocation, DEFAULT_COUNT,
};

fn parsed(arguments: &[&str]) -> Invocation {
    let mut args: Vec<String> = vec!["fibonacci".to_string()];
    for argument in arguments {
        args.push(argument.to_string());
    }
    parse_arguments(&args)
}

#[test]
fn no_argument_gives_the_defaults() {
    let invocation = parsed(&[]);
    assert_eq!(DEFAULT_COUNT, 10);
    assert_eq!(invocation.count, 10);
    assert!(!invocation.fast);
    assert!(!invocation.help);
    assert!(invocation.rejected.is_empty());

    let invocation = parse_arguments(&Vec::new());
    assert_eq!(invocation.count, 10);
    assert!(!invocation.fast);
    assert!(!invocation.help);
}

#[test]
fn the_name_of_the_program_is_passed_over() {
    let invocation = parse_arguments(&vec!["--num=3".to_string()]);
    assert_eq!(invocation.count, 10);
    let invocation = parse_arguments(&vec!["--help".to_string(), "--fast".to_string()]);
    assert!(!invocation.help);
    assert!(invocation.fast);
}

#[test]
fn a_count_is_taken() {
    assert_eq!(parsed(&["--num=5"]).count, 5);
    assert_eq!(parsed(&["--num=0"]).count, 0);
    assert_eq!(parsed(&["--num=+7"]).count, 7);
    assert_eq!(parsed(&["--num=007"]).count, 7);
    assert_eq!(parsed(&["--num=48"]).count, 48);
    assert_eq!(parsed(&["--num=5", "--num=6"]).count, 6);
    assert!(parsed(&["--num=5"]).rejected.is_empty());
}

#[test]
fn an_invalid_count_leaves_the_default() {
    let invocation = parsed(&["--num=abc"]);
    assert_eq!(invocation.count, 10);
    assert_eq!(invocation.rejected, vec![10]);
    assert!(!invocation.fast);
    assert!(!invocation.help);

    let invalid = [
        "--num=",
        "--num=-3",
        "--num=+",
        "--num=1.5",
        "--num= 4",
        "--num=4 ",
        "--num=4x",
        "--num=++4",
        "--num=\u{664}",
    ];
    for text in invalid {
        let invocation = parsed(&[text]);
        assert_eq!(invocation.count, 10, "{}", text);
        assert_eq!(invocation.rejected, vec![10], "{}", text);
    }
}

#[test]
fn an_invalid_count_leaves_the_count_before_it() {
    let invocation = parsed(&["--num=3", "--num=abc", "--fast", "--num=x"]);
    assert_eq!(invocation.count, 3);
    assert_eq!(invocation.rejected, vec![3, 3]);
    assert!(invocation.fast);

    let invocation = parsed(&["--num=abc", "--num=4", "--num=-1"]);
    assert_eq!(invocation.count, 4);
    assert_eq!(invocation.rejected, vec![10, 4]);
}

#[test]
fn a_count_too_large_is_invalid() {
    let largest = format!("--num={}", usize::MAX);
    assert_eq!(parsed(&[largest.as_str()]).count, usize::MAX);
    let beyond = format!("--num={}0", usize::MAX);
    assert_eq!(parsed(&[beyond.as_str()]).count, 10);
    assert_eq!(parsed(&[beyond.as_str()]).rejected, vec![10]);
    let next = format!("--num={}", usize::MAX as u128 + 1);
    assert_eq!(parsed(&[next.as_str()]).count, 10);
    assert_eq!(parsed(&["--num=99999999999999999999999999999999999999999"]).count, 10);
}

#[test]
fn a_repeated_prefix_is_stripped() {
    assert_eq!(parsed(&["--num=--num=4"]).count, 4);
    assert_eq!(parsed(&["--num=--num=--num=12"]).count, 12);
    assert_eq!(parsed(&["--num=--num="]).rejected, vec![10]);
}

#[test]
fn the_fast_level_is_chosen() {
    let invocation = parsed(&["--fast"]);
    assert!(invocation.fast);
    assert!(!invocation.help);
    assert_eq!(invocation.count, 10);
    assert!(!parsed(&["--fast "]).fast);
    assert!(!parsed(&["--fas"]).fast);
    assert!(!parsed(&["fast"]).fast);
    assert!(parsed(&["--num=2", "--fast"]).fast);
}

#[test]
fn help_ends_the_reading() {
    assert!(parsed(&["--help"]).help);
    assert!(parsed(&["-h"]).help);
    assert!(!parsed(&["-help"]).help);
    assert!(!parsed(&["--h"]).help);

    let invocation = parsed(&["--num=4", "-h", "--fast", "--num=9", "--num=x"]);
    assert!(invocation.help);
    assert!(!invocation.fast);
    assert_eq!(invocation.count, 4);
    assert!(invocation.rejected.is_empty());

    let invocation = parsed(&["--num=x", "--help", "--num=y"]);
    assert!(invocation.help);
    assert_eq!(invocation.rejected, vec![10]);
}

#[test]
fn other_arguments_are_passed_over() {
    let invocation = parsed(&["", "num=4", "--NUM=4", "-n", "4", "--num", "\u{e9}t\u{e9}"]);
    assert_eq!(invocation.count, 10);
    assert!(!invocation.fast);
    assert!(!invocation.help);
    assert!(invocation.rejected.is_empty());
}

#[test]
fn one_argument_at_a_time() {
    let mut invocation =
        Invocation { count: 3, fast: false, help: false, rejected: Vec::new() };
    read_argument(&mut invocation, "--num=8");
    assert_eq!(invocation.count, 8);
    read_argument(&mut invocation, "--num=eight");
    assert_eq!(invocation.count, 8);
    assert_eq!(invocation.rejected, vec![8]);
    read_argument(&mut invocation, "--fast");
    assert!(invocation.fast);
    read_argument(&mut invocation, "--help");
    assert!(invocation.help);
    read_argument(&mut invocation, "--num=9");
    assert_eq!(invocation.count, 9);
}

#[test]
fn counts_are_read() {
    assert_eq!(parse_count("12", 0), Some(12));
    assert_eq!(parse_count("x12", 1), Some(12));
    assert_eq!(parse_count("x12", 2), Some(2));
    assert_eq!(parse_count("x12", 3), None);
    assert_eq!(parse_count("x12", 0), None);
    assert_eq!(parse_count("+0", 0), Some(0));
    assert_eq!(parse_count("+", 0), None);
    assert_eq!(parse_count("-0", 0), None);
    assert_eq!(parse_count("", 0), None);
    assert_eq!(parse_count("\u{e9}42", 1), Some(42));
    assert_eq!(parse_count("0000000000000000000000000000000000012", 0), Some(12));
}

#[test]
fn prefixes_are_found() {
    assert!(has_prefix_at("--num=5", 0, "--num="));
    assert!(!has_prefix_at("--num=5", 1, "--num="));
    assert!(has_prefix_at("--num=5", 2, "num"));
    assert!(has_prefix_at("--num=5", 7, ""));
    assert!(!has_prefix_at("--num=5", 6, "55"));
    assert!(has_prefix_at("abc", 0, "abc"));
    assert!(!has_prefix_at("ab", 0, "abc"));
    assert_eq!(strip_offset("--num=5", "--num="), 6);
    assert_eq!(strip_offset("--num=--num=5", "--num="), 12);
    assert_eq!(strip_offset("5", "--num="), 0);
    assert_eq!(strip_offset("aaa", "a"), 3);
    assert_eq!(strip_offset("aaa", ""), 0);
    assert!(same_text("--fast", "--fast"));
    assert!(!same_text("--fast", "--fas"));
    assert!(!same_text("--fas", "--fast"));
    assert!(!same_text("--fast", "--fasT"));
    assert!(same_text("", ""));
}
