//! Texts, numbers, and the marking of errors in logs.

use forge2k::log::build_line_is_error;
use forge2k::log::command_line_is_error;
use forge2k::log::lowered_names_build_failure;
use forge2k::log::lowered_names_failure;
use forge2k::log::LogLine;
use forge2k::text::contains;
use forge2k::text::decimal_text;
use forge2k::text::join;
use forge2k::text::lines;
use forge2k::text::parse_u32;
use forge2k::text::replace;
use forge2k::text::signed_decimal_text;
use forge2k::text::split_whitespace;
use forge2k::text::starts_with;
use forge2k::text::trim;
use forge2k::text::trim_end_matches;

const SAMPLES: [&str; 16] = [
    "",
    " ",
    "a",
    "\n",
    "a\nb",
    "a\r\nb\n",
    "\r\n\r\n",
    "a\rb\n\nc\r",
    "  two  words\t\u{3000}here ",
    "\u{a0}x\u{85}",
    "no trailing",
    "éàü 漢字 🚀",
    "\u{200b}zero\u{feff}",
    "///",
    "a//",
    "\u{1c}\u{1f} \u{2028}x",
];

#[test]
fn trimming_agrees_with_std() {
    for sample in SAMPLES {
        assert_eq!(trim(sample), sample.trim(), "{:?}", sample);
        assert_eq!(trim_end_matches(sample, '/'), sample.trim_end_matches('/'), "{:?}", sample);
    }
}

#[test]
fn lines_and_words_agree_with_std() {
    for sample in SAMPLES {
        assert_eq!(lines(sample), sample.lines().collect::<Vec<_>>(), "{:?}", sample);
        assert_eq!(
            split_whitespace(sample),
            sample.split_whitespace().collect::<Vec<_>>(),
            "{:?}",
            sample
        );
    }
}

#[test]
fn searching_agrees_with_std() {
    for text in SAMPLES {
        for part in SAMPLES {
            assert_eq!(contains(text, part), text.contains(part), "{:?} in {:?}", part, text);
            assert_eq!(starts_with(text, part), text.starts_with(part), "{:?} in {:?}", part, text);
        }
    }
    assert!(contains("aab", "ab"));
    assert!(!contains("aab", "ba"));
}

#[test]
fn joining_and_replacing() {
    let parts: Vec<String> = vec!["a".to_string(), String::new(), "é".to_string()];
    assert_eq!(join(&parts, ", "), "a, , é");
    assert_eq!(join(&Vec::new(), ", "), "");
    assert_eq!(replace("a/b//c", '/', "_"), "a_b__c");
    assert_eq!(replace("", '/', "_"), "");
}

#[test]
fn numbers_in_decimal() {
    assert_eq!(decimal_text(0), "0");
    assert_eq!(decimal_text(10), "10");
    assert_eq!(decimal_text(1234567890), "1234567890");
    assert_eq!(decimal_text(u64::MAX), "18446744073709551615");
    assert_eq!(signed_decimal_text(0), "0");
    assert_eq!(signed_decimal_text(-1), "-1");
    assert_eq!(signed_decimal_text(i32::MIN), "-2147483648");
    assert_eq!(signed_decimal_text(i32::MAX), "2147483647");
}

#[test]
fn numbers_are_read_as_std_reads_them() {
    let samples = [
        "", "0", "+", "+7", "-7", "007", "4294967295", "4294967296", "99999999999999999999", " 1",
        "1 ", "1_0", "٣", "+0", "++1", "8x",
    ];
    for sample in samples {
        assert_eq!(parse_u32(sample), sample.parse::<u32>().ok(), "{:?}", sample);
    }
}

#[test]
fn decimal_numbers_are_read_back() {
    for n in [0u32, 9, 10, 99, 100, 65536, u32::MAX] {
        assert_eq!(parse_u32(&decimal_text(n as u64)), Some(n));
    }
}

#[test]
fn failures_in_any_case_are_errors() {
    assert!(command_line_is_error("ERROR: no space"));
    assert!(command_line_is_error("it FaiLed"));
    assert!(!command_line_is_error("FATAL: gone"));
    assert!(!command_line_is_error("#5 [build 2/9] RUN apt-get update"));
    assert!(build_line_is_error("FATAL: gone"));
    assert!(build_line_is_error("ERROR: no space"));
    assert!(build_line_is_error("step Failed"));
    assert!(!build_line_is_error("#5 DONE 3.2s"));
}

#[test]
fn failures_in_lowercase_lines() {
    assert!(lowered_names_failure("an error"));
    assert!(lowered_names_failure("failed"));
    assert!(!lowered_names_failure("fatal"));
    assert!(!lowered_names_failure("ERROR"));
    assert!(lowered_names_build_failure("fatal"));
    assert!(!lowered_names_build_failure("fine"));
}

#[test]
fn log_lines_carry_the_time() {
    let line = LogLine::stamped("hello".to_string(), true);
    assert_eq!(line.text, "hello");
    assert!(line.is_error);
    let parts: Vec<&str> = line.timestamp.split(':').collect();
    assert_eq!(parts.len(), 3);
    assert!(parts.iter().all(|p| p.len() == 2));
    let numbers: Vec<u32> = parts.iter().map(|p| p.parse().unwrap()).collect();
    assert!(numbers[0] <= 23 && numbers[1] <= 59 && numbers[2] <= 60);
}
