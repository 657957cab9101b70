//! What the functions that ask git for a page and read its output give back, told of their calls.
//!
//! `call_ensures(f, args, out)` says that a call of `f` with `args` may return `out`. So each law
//! here holds of every call, whatever the words in which the contract of the function is put.
use crate::history::{
    is_valid_sha, log_args, log_graph, parse_graph_line, parse_log, CommitRow, GitOutput,
};
use crate::text::{split_lines, split_once, to_decimal};
use vstd::prelude::*;

verus! {

/// Every character of `s` stands in the list of hexadecimal digits.
pub open spec fn holds_only_hex(s: Seq<char>) -> bool {
    forall|i: int| 0 <= i < s.len() ==> "0123456789abcdefABCDEF"@.contains(#[trigger] s[i])
}

/// Two rows show the same text and belong to the same commit, or both to none.
pub open spec fn same_row(a: CommitRow, b: CommitRow) -> bool {
    &&& a.line@ == b.line@
    &&& a.sha is Some <==> b.sha is Some
    &&& a.sha is Some ==> a.sha->0@ == b.sha->0@
}

/// Two pages have the same rows in the same order.
pub open spec fn same_rows(a: Seq<CommitRow>, b: Seq<CommitRow>) -> bool {
    &&& a.len() == b.len()
    &&& forall|i: int| 0 <= i < a.len() ==> same_row(#[trigger] a[i], b[i])
}

proof fn hex_digits_are_listed(c: char)
    ensures
        crate::history::is_hex_digit(c) <==> "0123456789abcdefABCDEF"@.contains(c),
{
    reveal_strlit("0123456789abcdefABCDEF");
    let digits = "0123456789abcdefABCDEF"@;
    if crate::history::is_hex_digit(c) {
        let i = if c <= '9' {
            c as int - '0' as int
        } else if c >= 'a' {
            10 + (c as int - 'a' as int)
        } else {
            16 + (c as int - 'A' as int)
        };
        assert(digits[i] == c);
    }
}

proof fn valid_ids_are_listed(s: Seq<char>)
    ensures
        crate::history::valid_sha(s) <==> 4 <= s.len() <= 64 && holds_only_hex(s),
{
    assert forall|i: int| 0 <= i < s.len() implies crate::history::is_hex_digit(#[trigger] s[i])
        == "0123456789abcdefABCDEF"@.contains(s[i]) by {
        hex_digits_are_listed(s[i]);
    }
    if crate::history::valid_sha(s) {
        assert forall|i: int| 0 <= i < s.len() implies "0123456789abcdefABCDEF"@.contains(
            #[trigger] s[i],
        ) by {
            assert(crate::history::is_hex_digit(s[i]));
        }
    }
}

/// A text is a commit id exactly if it has 4 to 64 characters, all of them hexadecimal digits in
/// either case.
pub proof fn ids_are_told_apart(s: &str, valid: bool)
    requires
        call_ensures(is_valid_sha, (s,), valid),
    ensures
        valid <==> 4 <= s@.len() <= 64 && holds_only_hex(s@),
{
    valid_ids_are_listed(s@);
}

/// A line with fewer than two separators, such as a row of graph edges, is shown character for
/// character, and belongs to no commit.
pub proof fn line_without_a_pair_is_kept(line: &str, row: CommitRow)
    requires
        call_ensures(parse_graph_line, (line,), row),
        forall|i: int, j: int|
            0 <= i < j < line@.len() ==> #[trigger] line@[i] != '\u{1f}' || #[trigger] line@[j]
                != '\u{1f}',
    ensures
        row.line@ == line@,
        row.sha is None,
{
    crate::history::unpaired_separator_leaves_the_line(line@);
}

/// Of a line with two separators, what stands before the first and what stands after the second
/// is shown, all of it and nothing else. What stands between them is the id exactly if it is one.
pub proof fn pair_is_cut_out(
    line: &str,
    row: CommitRow,
    edges: Seq<char>,
    embedded: Seq<char>,
    subject: Seq<char>,
)
    requires
        call_ensures(parse_graph_line, (line,), row),
        line@ == edges + seq!['\u{1f}'] + embedded + seq!['\u{1f}'] + subject,
        !edges.contains('\u{1f}'),
        !embedded.contains('\u{1f}'),
    ensures
        row.line@ == edges + subject,
        row.sha is Some <==> 4 <= embedded.len() <= 64 && holds_only_hex(embedded),
        row.sha is Some ==> row.sha->0@ == embedded,
{
    crate::history::first_pair_of_separators_counts(edges, embedded, subject);
    valid_ids_are_listed(embedded);
}

/// A split takes the first place of the character: the parts around it make up the text again, and
/// the first part does not hold it. There is no split exactly if the text does not hold it.
pub proof fn split_is_at_the_first_place(s: &str, c: char, parts: Option<(&str, &str)>)
    requires
        call_ensures(split_once, (s, c), parts),
    ensures
        parts is Some <==> s@.contains(c),
        parts matches Some((before, after)) ==> before@ + seq![c] + after@ == s@
            && !before@.contains(c),
{
    s@.index_of_first_ensures(c);
    if let Some((before, after)) = parts {
        let k = s@.index_of_first(c)->0;
        assert(before@ + seq![c] + after@ == s@);
        assert forall|j: int| 0 <= j < before@.len() implies before@[j] != c by {
            assert(before@[j] == s@[j]);
        }
    }
}

/// An empty text has no lines, and a text that is not empty and holds no line feed is one line.
pub proof fn text_without_line_feed_is_a_line(s: &str, lines: Vec<String>)
    requires
        call_ensures(split_lines, (s,), lines),
        !s@.contains('\n'),
    ensures
        s@.len() == 0 ==> lines.len() == 0,
        s@.len() > 0 ==> lines.len() == 1 && lines@[0]@ == s@,
{
    s@.index_of_first_ensures('\n');
    assert(crate::text::strings(lines@).len() == lines.len());
    if s@.len() > 0 {
        assert(crate::text::strings(lines@) == seq![s@]);
        assert(crate::text::strings(lines@)[0] == lines@[0]@);
    }
}

/// The lines of a text are what stands before its first line feed, followed by the lines of what
/// stands after it. One carriage return before the line feed belongs to the line ending.
pub proof fn lines_follow_each_other(
    s: &str,
    lines: Vec<String>,
    line: Seq<char>,
    returned: bool,
    rest: &str,
    rest_lines: Vec<String>,
)
    requires
        call_ensures(split_lines, (s,), lines),
        call_ensures(split_lines, (rest,), rest_lines),
        !line.contains('\n'),
        returned ==> s@ == line + seq!['\r', '\n'] + rest@,
        !returned ==> s@ == line + seq!['\n'] + rest@ && (line.len() == 0 || line.last() != '\r'),
    ensures
        lines.len() == rest_lines.len() + 1,
        lines@[0]@ == line,
        forall|i: int| 0 <= i < rest_lines.len() ==> lines@[i + 1]@ == (#[trigger] rest_lines@[i])@,
{
    let text = s@;
    let end: int = if returned {
        line.len() as int + 1
    } else {
        line.len() as int
    };
    assert(text[end] == '\n');
    text.index_of_first_ensures('\n');
    assert(text.contains('\n'));
    let found = text.index_of_first('\n')->0;
    assert(found == end) by {
        if found < line.len() {
            assert(line[found] == '\n');
        }
    }
    if returned {
        assert(text.take(end) == line.push('\r'));
        assert(text.take(end).drop_last() == line);
    } else {
        assert(text.take(end) == line);
    }
    assert(text.skip(end + 1) == rest@);
    let all = crate::text::strings(lines@);
    let others = crate::text::strings(rest_lines@);
    assert(all == seq![line] + others);
    assert(all.len() == lines.len());
    assert(all[0] == lines@[0]@);
    assert forall|i: int| 0 <= i < rest_lines.len() implies lines@[i + 1]@ == (
    #[trigger] rest_lines@[i])@ by {
        assert(all[i + 1] == lines@[i + 1]@);
        assert(others[i] == rest_lines@[i]@);
    }
}

/// Reading an output gives one row for each of its lines, in order, and each is what reading that
/// line alone gives.
pub proof fn output_is_read_line_by_line(
    text: &str,
    rows: Vec<CommitRow>,
    lines: Vec<String>,
    i: int,
    line: &str,
    row: CommitRow,
)
    requires
        call_ensures(parse_log, (text,), rows),
        call_ensures(split_lines, (text,), lines),
        call_ensures(parse_graph_line, (line,), row),
        0 <= i < lines.len() ==> line@ == lines@[i]@,
    ensures
        rows.len() == lines.len(),
        0 <= i < rows.len() ==> same_row(rows@[i], row),
{
    let models = crate::history::log_rows(text@);
    assert(crate::history::row_models(rows@).len() == rows.len());
    assert(crate::text::strings(lines@).len() == lines.len());
    if 0 <= i < rows.len() {
        assert(crate::history::row_models(rows@)[i] == rows@[i]@);
        assert(crate::text::strings(lines@)[i] == lines@[i]@);
        assert(models[i] == crate::history::parsed_row(lines@[i]@));
    }
}

/// A page is what git printed, read as text; what a git printed that could not be run or failed
/// is not read.
pub proof fn page_is_what_git_printed(
    output: Option<GitOutput>,
    rows: Vec<CommitRow>,
    text: &str,
    read: Vec<CommitRow>,
)
    requires
        call_ensures(log_graph, (output,), rows),
        call_ensures(parse_log, (text,), read),
    ensures
        output is None || !output->0.success ==> rows.len() == 0,
        output is Some && output->0.success && text@ == crate::history::lossy_utf8(
            output->0.stdout@,
        ) ==> same_rows(rows@, read@),
        output is Some && output->0.success && vstd::utf8::valid_utf8(output->0.stdout@) && text@
            == vstd::utf8::decode_utf8(output->0.stdout@) ==> same_rows(rows@, read@),
{
    let models = crate::history::row_models(rows@);
    let read_models = crate::history::row_models(read@);
    assert(models.len() == rows.len());
    assert(read_models.len() == read.len());
    assert forall|i: int| 0 <= i < rows.len() && models == read_models implies same_row(
        #[trigger] rows@[i],
        read@[i],
    ) by {
        assert(models[i] == rows@[i]@);
        assert(read_models[i] == read@[i]@);
    }
}

/// The digits of a number are the digits of its tenth part followed by the digit of what remains;
/// a number below ten is its own digit.
pub proof fn digits_are_decimal(n: usize, s: String, tenth: String)
    requires
        call_ensures(to_decimal, (n,), s),
        call_ensures(to_decimal, ((n / 10) as usize,), tenth),
    ensures
        n < 10 ==> s@.len() == 1,
        n >= 10 ==> s@.len() == tenth@.len() + 1 && s@.drop_last() == tenth@,
        s@.len() > 0,
        "0123456789"@[n as int % 10] == s@.last(),
        n > 0 ==> s@[0] != '0',
{
    reveal_strlit("0123456789");
    decimal_starts_without_zero(n as nat);
    assert(crate::text::decimal(n as nat).drop_last() == tenth@ || n < 10);
}

proof fn decimal_starts_without_zero(n: nat)
    ensures
        crate::text::decimal(n).len() > 0,
        n > 0 ==> crate::text::decimal(n)[0] != '0',
    decreases n,
{
    if n >= 10 {
        decimal_starts_without_zero(n / 10);
    }
}

/// The arguments of a request for one page: `log` prints the graph in colour, each commit with its
/// full id between two unit separators before what is shown; the two numbers are the limit and the
/// number of commits to skip; and all refs are walked exactly if that is asked for.
pub proof fn request_says_what_is_asked(
    all: bool,
    skip: usize,
    limit: usize,
    args: Vec<String>,
    limit_digits: String,
    skip_digits: String,
)
    requires
        call_ensures(log_args, (all, skip, limit), args),
        call_ensures(to_decimal, (limit,), limit_digits),
        call_ensures(to_decimal, (skip,), skip_digits),
    ensures
        args.len() == if all {
            7int
        } else {
            6
        },
        args@[0]@ == "log"@,
        args@[1]@ == "--graph"@,
        args@[2]@ == "--color=always"@,
        args@[3]@ == "--format=%x1f%H%x1f%C(auto)%h%d%C(reset) %s"@,
        args@[4]@ == "-n"@ + limit_digits@,
        args@[5]@ == "--skip="@ + skip_digits@,
        all ==> args@[6]@ == "--all"@,
        forall|i: int| 0 <= i < 6 ==> #[trigger] args@[i]@ != "--all"@,
        crate::text::decimal_value(limit_digits@) == limit,
        crate::text::decimal_value(skip_digits@) == skip,
{
    let texts = crate::text::strings(args@);
    assert(texts.len() == args.len());
    assert forall|i: int| 0 <= i < args.len() implies texts[i] == #[trigger] args@[i]@ by {}
    crate::text::decimal_is_read_back(limit as nat);
    crate::text::decimal_is_read_back(skip as nat);
    reveal_strlit("--all");
    reveal_strlit("log");
    reveal_strlit("--graph");
    reveal_strlit("--color=always");
    reveal_strlit("--format=%x1f%H%x1f%C(auto)%h%d%C(reset) %s");
    reveal_strlit("-n");
    reveal_strlit("--skip=");
    let wide = "--all"@;
    assert(args@[0]@ != wide && args@[1]@ != wide && args@[2]@ != wide && args@[3]@ != wide) by {
        assert(wide.len() == 5);
        assert(args@[0]@.len() == 3 && args@[1]@.len() == 7 && args@[2]@.len() == 14);
        assert(args@[3]@.len() > 5);
    }
    assert(wide[1] == '-' && wide[2] == 'a');
    assert(args@[4]@[1] == 'n');
    assert(args@[5]@[2] == 's');
}

/// Of two requests that differ in the scope alone, the one for all refs has one argument more, and
/// the others are the same.
pub proof fn scope_is_one_argument(
    skip: usize,
    limit: usize,
    branch: Vec<String>,
    everything: Vec<String>,
)
    requires
        call_ensures(log_args, (false, skip, limit), branch),
        call_ensures(log_args, (true, skip, limit), everything),
    ensures
        everything.len() == branch.len() + 1,
        forall|i: int|
            0 <= i < branch.len() ==> (#[trigger] branch@[i])@ == everything@[i]@ && branch@[i]@
                != "--all"@,
        everything@.last()@ == "--all"@,
{
    let a = crate::text::strings(branch@);
    let b = crate::text::strings(everything@);
    assert(a.len() == branch.len() && b.len() == everything.len());
    assert(b[b.len() - 1] == everything@.last()@);
    reveal_strlit("--all");
    reveal_strlit("log");
    reveal_strlit("--graph");
    reveal_strlit("--color=always");
    reveal_strlit("--format=%x1f%H%x1f%C(auto)%h%d%C(reset) %s");
    reveal_strlit("-n");
    reveal_strlit("--skip=");
    let wide = "--all"@;
    assert(wide.len() == 5 && wide[1] == '-' && wide[2] == 'a');
    assert forall|i: int| 0 <= i < branch.len() implies (#[trigger] branch@[i])@ == everything@[i]@
        && branch@[i]@ != wide by {
        assert(a[i] == branch@[i]@);
        assert(b[i] == everything@[i]@);
        assert(a[4][1] == 'n');
        assert(a[5][2] == 's');
    }
}

/// None of these functions turns an input away, but that a text is split at an ASCII character.
pub proof fn every_input_is_read(
    s: &str,
    c: char,
    output: Option<GitOutput>,
    all: bool,
    skip: usize,
    limit: usize,
)
    ensures
        call_requires(is_valid_sha, (s,)),
        call_requires(parse_graph_line, (s,)),
        call_requires(parse_log, (s,)),
        call_requires(split_lines, (s,)),
        call_requires(log_graph, (output,)),
        call_requires(log_args, (all, skip, limit)),
        call_requires(to_decimal, (skip,)),
        (c as int) < 128 ==> call_requires(split_once, (s, c)),
{
}

} // verus!
