//! Reading `git log --graph` output.
use herdr_file_viewer::history::{
    is_valid_sha, log_args, log_graph, parse_graph_line, parse_log, CommitRow, GitOutput, PAGE,
};
use herdr_file_viewer::text::{split_lines, split_once, to_decimal};

const SHA: &str = "0123456789abcdef0123456789abcdef01234567";

fn row(sha: Option<&str>, line: &str) -> CommitRow {
    CommitRow {
        sha: sha.map(|s| s.to_string()),
        line: line.to_string(),
    }
}

fn answered(bytes: &[u8]) -> Option<GitOutput> {
    Some(GitOutput {
        success: true,
        stdout: bytes.to_vec(),
    })
}

#[test]
fn parse_graph_line_extracts_sha_and_strips_markers() {
    let line =
        "* \u{1f}0123456789abcdef0123456789abcdef01234567\u{1f}\u{1b}[33m0123456\u{1b}[m subject";
    let row = parse_graph_line(line);
    assert_eq!(
        row.sha.as_deref(),
        Some("0123456789abcdef0123456789abcdef01234567")
    );
    assert_eq!(row.line, "* \u{1b}[33m0123456\u{1b}[m subject");
}

#[test]
fn parse_graph_line_edge_row_has_no_sha() {
    // A continuation row: pure graph edges, no format expansion, no markers.
    let row = parse_graph_line("|\\");
    assert_eq!(row.sha, None);
    assert_eq!(row.line, "|\\");
}

#[test]
fn parse_graph_line_malformed_markers_degrade_to_plain_row() {
    // One marker only: no id, the line displays as it is.
    let row = parse_graph_line("* \u{1f}abcd123");
    assert_eq!(row.sha, None);
    assert_eq!(row.line, "* \u{1f}abcd123");
    // Non-hex between markers: markers stripped, id rejected.
    let row = parse_graph_line("* \u{1f}not-hex!\u{1f} subject");
    assert_eq!(row.sha, None);
    assert_eq!(row.line, "*  subject");
}

#[test]
fn is_valid_sha_accepts_hex_and_rejects_argv_shaped_values() {
    assert!(is_valid_sha("0123456789abcdef0123456789abcdef01234567"));
    assert!(is_valid_sha("abcd123")); // short form
    assert!(!is_valid_sha("--all")); // option injection
    assert!(!is_valid_sha("HEAD")); // not hex
    assert!(!is_valid_sha("abc")); // too short
    assert!(!is_valid_sha("")); // empty
}

#[test]
fn valid_ids_are_bounded_and_pure_hex() {
    assert!(is_valid_sha("abcd"));
    assert!(is_valid_sha("ABCDEF09"));
    assert!(is_valid_sha(&"f".repeat(64)));
    assert!(!is_valid_sha(&"f".repeat(65)));
    assert!(!is_valid_sha("abcg"));
    assert!(!is_valid_sha("abc`"));
    assert!(!is_valid_sha("abc@"));
    assert!(!is_valid_sha("abc:"));
    assert!(!is_valid_sha("abc/"));
    assert!(!is_valid_sha("abc\n"));
    assert!(!is_valid_sha("ab\u{e9}d"));
    // A full-width digit is no ASCII digit.
    assert!(!is_valid_sha("abc\u{ff11}"));
}

#[test]
fn only_the_first_pair_of_markers_counts() {
    let line = format!("| * \u{1f}{SHA}\u{1f}odd\u{1f}subject\u{1f}");
    assert_eq!(
        parse_graph_line(&line),
        row(Some(SHA), "| * odd\u{1f}subject\u{1f}")
    );
}

#[test]
fn empty_and_non_ascii_lines_are_parsed() {
    assert_eq!(parse_graph_line(""), row(None, ""));
    assert_eq!(parse_graph_line("\u{1f}\u{1f}"), row(None, ""));
    assert_eq!(
        parse_graph_line("\u{2502} \u{1f}abcd\u{1f}\u{e9}t\u{e9} \u{1f600}"),
        row(Some("abcd"), "\u{2502} \u{e9}t\u{e9} \u{1f600}")
    );
}

#[test]
fn log_args_name_one_page_of_a_read_only_log() {
    assert_eq!(
        log_args(false, 0, PAGE),
        vec![
            "log",
            "--graph",
            "--color=always",
            "--format=%x1f%H%x1f%C(auto)%h%d%C(reset) %s",
            "-n200",
            "--skip=0",
        ]
    );
    assert_eq!(
        log_args(true, 1400, 7),
        vec![
            "log",
            "--graph",
            "--color=always",
            "--format=%x1f%H%x1f%C(auto)%h%d%C(reset) %s",
            "-n7",
            "--skip=1400",
            "--all",
        ]
    );
}

#[test]
fn pages_that_differ_are_asked_for_differently() {
    assert_ne!(log_args(false, 1, 200), log_args(false, 12, 200));
    assert_ne!(log_args(false, 1, 200), log_args(true, 1, 200));
    assert_ne!(log_args(false, 1, 20), log_args(false, 1, 200));
}

#[test]
fn decimal_numbers_are_written_like_the_standard_library_does() {
    for n in [0, 7, 9, 10, 11, 99, 100, 101, 200, 65535, 90210, usize::MAX] {
        assert_eq!(to_decimal(n), n.to_string());
    }
}

#[test]
fn log_graph_gives_one_row_for_each_line_in_order() {
    let text = format!("* \u{1f}{SHA}\u{1f}one\n|\\\n| * \u{1f}beef\u{1f}two\n");
    let expected = vec![
        row(Some(SHA), "* one"),
        row(None, "|\\"),
        row(Some("beef"), "| * two"),
    ];
    assert_eq!(log_graph(answered(text.as_bytes())), expected);
    assert_eq!(parse_log(&text), expected);
}

#[test]
fn git_failure_gives_no_rows() {
    assert_eq!(log_graph(None), vec![]);
    assert_eq!(
        log_graph(Some(GitOutput {
            success: false,
            stdout: b"* \x1fbeef\x1fone\n".to_vec(),
        })),
        vec![]
    );
    assert_eq!(log_graph(answered(b"")), vec![]);
}

#[test]
fn bytes_that_are_no_utf8_are_replaced() {
    assert_eq!(
        log_graph(answered(b"* \x1fbeef\x1fcaf\xe9 x\n")),
        vec![row(Some("beef"), "* caf\u{fffd} x")]
    );
    assert_eq!(
        log_graph(answered("* \u{1f}beef\u{1f}caf\u{e9}\n".as_bytes())),
        vec![row(Some("beef"), "* caf\u{e9}")]
    );
}

#[test]
fn every_id_read_is_valid() {
    let text = "* \u{1f}--all\u{1f}a\n* \u{1f}beef\u{1f}b\n* \u{1f}abc\u{1f}c\n";
    let rows = parse_log(text);
    assert_eq!(rows.len(), 3);
    for row in &rows {
        assert!(row.sha.as_deref().map_or(true, is_valid_sha));
    }
    assert_eq!(rows[1].sha.as_deref(), Some("beef"));
}

#[test]
fn lines_are_split_like_the_standard_library_does() {
    for text in [
        "", "\n", "\n\n", "a", "a\n", "a\nb", "a\r\nb\r\n", "a\r", "a\r\r\n", "\r\n", "\r", "a\n\nb",
        "\u{e9}\n\u{1f600}\r\n", "a\rb\n",
    ] {
        let expected: Vec<String> = text.lines().map(|l| l.to_string()).collect();
        assert_eq!(split_lines(text), expected, "{text:?}");
    }
}

#[test]
fn texts_are_split_at_the_first_place() {
    assert_eq!(
        split_once("\u{e9}x\u{1f}y\u{1f}", '\u{1f}'),
        Some(("\u{e9}x", "y\u{1f}"))
    );
    assert_eq!(split_once("\n\u{1f600}", '\n'), Some(("", "\u{1f600}")));
    assert_eq!(split_once("\u{1f600}\n", '\n'), Some(("\u{1f600}", "")));
    // A character whose encoding has no such byte.
    assert_eq!(split_once("\u{10a}\u{a0a}", '\n'), None);
    assert_eq!(split_once("", 'x'), None);
}

#[test]
fn a_large_output_is_read_in_linear_time() {
    let line = format!("* \u{1f}{SHA}\u{1f}{}\r\n", "\u{e9}".repeat(40));
    let rows = parse_log(&line.repeat(20_000));
    assert_eq!(rows.len(), 20_000);
    assert_eq!(rows[19_999].sha.as_deref(), Some(SHA));
    assert_eq!(rows[19_999].line, format!("* {}", "\u{e9}".repeat(40)));
}
