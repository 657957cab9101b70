//! The rows of the commit graph and the reading of `git log --graph` output.
//!
//! Git draws the graph. The format string embeds the full id of each commit between two unit
//! separators, so that a row of output is mapped back to its commit by cutting the id out again.
//! A row without separators is a pure edge row and belongs to no commit. A failure of git gives no
//! rows.
use crate::text::{split_lines, split_once, to_decimal};
use vstd::prelude::*;

verus! {

/// The unit separator that stands before and after the id embedded in a row of output.
pub const SEP: char = '\u{1f}';

/// How many commits one page of the graph loads.
pub const PAGE: usize = 200;

/// One row of the commit graph: the styled display line, and the id of the commit on the row,
/// `None` for a pure edge row.
#[derive(Debug, Clone, PartialEq, Eq)]
pub struct CommitRow {
    pub sha: Option<String>,
    /// The display line without the embedded id. Its text comes from the repository and is not to
    /// be trusted.
    pub line: String,
}

/// A row as character sequences.
pub struct RowModel {
    pub sha: Option<Seq<char>>,
    pub line: Seq<char>,
}

impl View for CommitRow {
    type V = RowModel;

    open spec fn view(&self) -> RowModel {
        RowModel {
            sha: match self.sha {
                Some(sha) => Some(sha@),
                None => None,
            },
            line: self.line@,
        }
    }
}

/// What a run of git came to.
pub struct GitOutput {
    /// Whether git reported success.
    pub success: bool,
    pub stdout: Vec<u8>,
}

/// Some rows as character sequences.
pub open spec fn row_models(rows: Seq<CommitRow>) -> Seq<RowModel> {
    rows.map_values(|row: CommitRow| row@)
}

/// An ASCII hexadecimal digit, in either case.
pub open spec fn is_hex_digit(c: char) -> bool {
    '0' <= c <= '9' || 'a' <= c <= 'f' || 'A' <= c <= 'F'
}

/// A commit id that may be handed to git: hexadecimal digits only, and not too few or too many.
pub open spec fn valid_sha(s: Seq<char>) -> bool {
    &&& 4 <= s.len() <= 64
    &&& forall|i: int| 0 <= i < s.len() ==> is_hex_digit(#[trigger] s[i])
}

/// The row with the display line `line` and no commit.
pub open spec fn plain_row(line: Seq<char>) -> RowModel {
    RowModel { sha: None, line }
}

/// The row that one line of output stands for. What stands between the first two separators is
/// cut out of the display line together with them, and is the id if it is a valid one. A line
/// with fewer separators is displayed as it is.
pub open spec fn parsed_row(line: Seq<char>) -> RowModel {
    match line.index_of_first(SEP) {
        None => plain_row(line),
        Some(first) => {
            let rest = line.skip(first + 1);
            match rest.index_of_first(SEP) {
                None => plain_row(line),
                Some(second) => RowModel {
                    sha: if valid_sha(rest.take(second)) {
                        Some(rest.take(second))
                    } else {
                        None
                    },
                    line: line.take(first) + rest.skip(second + 1),
                },
            }
        },
    }
}

/// The rows of a whole output of `git log --graph`: one for each line, in order.
pub open spec fn log_rows(text: Seq<char>) -> Seq<RowModel> {
    crate::text::text_lines(text).map_values(|line: Seq<char>| parsed_row(line))
}

/// The arguments of the `git log` that prints one page: at most `limit` commits after the first
/// `skip` ones, reachable from `HEAD` or, with `all`, from any ref.
pub open spec fn log_arguments(all: bool, skip: nat, limit: nat) -> Seq<Seq<char>> {
    let page = seq![
        "log"@,
        "--graph"@,
        "--color=always"@,
        "--format=%x1f%H%x1f%C(auto)%h%d%C(reset) %s"@,
        "-n"@ + crate::text::decimal(limit),
        "--skip="@ + crate::text::decimal(skip),
    ];
    if all {
        page.push("--all"@)
    } else {
        page
    }
}

/// The line of output for a commit: the edges of the graph, the embedded text, the subject.
pub open spec fn marked_line(edges: Seq<char>, embedded: Seq<char>, subject: Seq<char>) -> Seq<
    char,
> {
    edges + seq![SEP] + embedded + seq![SEP] + subject
}

/// What `String::from_utf8_lossy` makes of `bytes`.
pub uninterp spec fn lossy_utf8(bytes: Seq<u8>) -> Seq<char>;

/// Calls `String::from_utf8_lossy`. Its result depends on the bytes alone and is named by
/// `lossy_utf8`; of bytes that are valid UTF-8 it is the text that they encode. How many
/// replacement characters stand for bytes that are not is left unsaid.
#[verifier::external_body]
fn decode_lossy(bytes: &Vec<u8>) -> (text: String)
    ensures
        text@ == lossy_utf8(bytes@),
        vstd::utf8::valid_utf8(bytes@) ==> text@ == vstd::utf8::decode_utf8(bytes@),
{
    String::from_utf8_lossy(bytes).into_owned()
}

/// Whether `s` is a commit id that may be handed to git. Ids are read from git's own output, and
/// tested once more where they go back, so that no other value becomes an argument.
pub fn is_valid_sha(s: &str) -> (valid: bool)
    ensures
        valid == valid_sha(s@),
{
    let n: usize = s.unicode_len();
    if n < 4 || n > 64 {
        return false;
    }
    for c in it: s.chars()
        invariant
            it.seq() == s@,
            forall|j: int| 0 <= j < it.index() ==> is_hex_digit(#[trigger] s@[j]),
    {
        let hex = ('0' <= c && c <= '9') || ('a' <= c && c <= 'f') || ('A' <= c && c <= 'F');
        if !hex {
            assert(!is_hex_digit(s@[it.index()]));
            return false;
        }
    }
    true
}

/// Splits one line of output into its display text and the embedded id. A malformed line becomes
/// a plain row.
pub fn parse_graph_line(line: &str) -> (row: CommitRow)
    ensures
        row@ == parsed_row(line@),
{
    proof {
        line@.index_of_first_ensures(SEP);
    }
    let Some((prefix, rest)) = split_once(line, SEP) else {
        return CommitRow { sha: None, line: line.to_owned() };
    };
    let Some((sha, suffix)) = split_once(rest, SEP) else {
        return CommitRow { sha: None, line: line.to_owned() };
    };
    let mut display = prefix.to_owned();
    display.append(suffix);
    let sha = if is_valid_sha(sha) {
        Some(sha.to_owned())
    } else {
        None
    };
    CommitRow { sha, line: display }
}

/// The rows of a whole output of `git log --graph`.
pub fn parse_log(text: &str) -> (rows: Vec<CommitRow>)
    ensures
        row_models(rows@) == log_rows(text@),
{
    let lines = split_lines(text);
    let mut rows: Vec<CommitRow> = Vec::new();
    let mut i: usize = 0;
    while i < lines.len()
        invariant
            i <= lines.len(),
            rows.len() == i,
            forall|j: int| 0 <= j < i ==> (#[trigger] rows@[j])@ == parsed_row(lines@[j]@),
        decreases lines.len() - i,
    {
        rows.push(parse_graph_line(lines[i].as_str()));
        i = i + 1;
    }
    proof {
        let models = log_rows(text@);
        assert(crate::text::strings(lines@).len() == lines.len());
        assert forall|j: int| 0 <= j < rows.len() implies row_models(rows@)[j] == models[j] by {
            assert(crate::text::strings(lines@)[j] == lines@[j]@);
        }
        assert(row_models(rows@) == models);
    }
    rows
}

/// The arguments for git that print one page of the graph, `skip` commits in. `all` widens the
/// walk from `HEAD` to every ref.
pub fn log_args(all: bool, skip: usize, limit: usize) -> (args: Vec<String>)
    ensures
        crate::text::strings(args@) == log_arguments(all, skip as nat, limit as nat),
{
    let mut count = "-n".to_owned();
    count.append(to_decimal(limit).as_str());
    let mut start = "--skip=".to_owned();
    start.append(to_decimal(skip).as_str());
    let mut args: Vec<String> = Vec::new();
    args.push("log".to_owned());
    args.push("--graph".to_owned());
    args.push("--color=always".to_owned());
    args.push("--format=%x1f%H%x1f%C(auto)%h%d%C(reset) %s".to_owned());
    args.push(count);
    args.push(start);
    if all {
        args.push("--all".to_owned());
    }
    assert(crate::text::strings(args@) == log_arguments(all, skip as nat, limit as nat));
    args
}

/// One page of the commit graph, in display order, from what git answered to `log_args`; `None`
/// where git could not be run. If it could not be run or failed there are no rows.
pub fn log_graph(output: Option<GitOutput>) -> (rows: Vec<CommitRow>)
    ensures
        row_models(rows@) == match output {
            Some(out) if out.success => log_rows(lossy_utf8(out.stdout@)),
            _ => Seq::empty(),
        },
        output matches Some(out) ==> out.success && vstd::utf8::valid_utf8(out.stdout@)
            ==> row_models(rows@) == log_rows(vstd::utf8::decode_utf8(out.stdout@)),
{
    match output {
        Some(out) => {
            if out.success {
                let text = decode_lossy(&out.stdout);
                parse_log(text.as_str())
            } else {
                Vec::new()
            }
        },
        None => Vec::new(),
    }
}

/// Whatever the subject holds, separators included, the first two separators enclose the embedded
/// text: it is cut out of the display line, and it is the id exactly if it is a valid one.
pub proof fn first_pair_of_separators_counts(
    edges: Seq<char>,
    embedded: Seq<char>,
    subject: Seq<char>,
)
    requires
        !edges.contains(SEP),
        !embedded.contains(SEP),
    ensures
        parsed_row(marked_line(edges, embedded, subject)) == (RowModel {
            sha: if valid_sha(embedded) {
                Some(embedded)
            } else {
                None
            },
            line: edges + subject,
        }),
{
    let line = marked_line(edges, embedded, subject);
    let first = edges.len() as int;
    line.index_of_first_ensures(SEP);
    assert(line[first] == SEP);
    assert(line.contains(SEP));
    assert(line.index_of_first(SEP) == Some(first)) by {
        let found = line.index_of_first(SEP)->0;
        if found < first {
            assert(edges[found] == SEP);
        }
    }
    let rest = line.skip(first + 1);
    let second = embedded.len() as int;
    assert(rest == embedded + seq![SEP] + subject);
    rest.index_of_first_ensures(SEP);
    assert(rest[second] == SEP);
    assert(rest.contains(SEP));
    assert(rest.index_of_first(SEP) == Some(second)) by {
        let found = rest.index_of_first(SEP)->0;
        if found < second {
            assert(embedded[found] == SEP);
        }
    }
    assert(rest.take(second) == embedded);
    assert(line.take(first) + rest.skip(second + 1) == edges + subject);
}

/// A commit row is mapped back to its commit, and its display line is what git drew around the
/// embedded id, without a separator unless the subject brings one.
pub proof fn commit_row_is_read_back(edges: Seq<char>, sha: Seq<char>, subject: Seq<char>)
    requires
        !edges.contains(SEP),
        valid_sha(sha),
    ensures
        parsed_row(marked_line(edges, sha, subject)) == (RowModel {
            sha: Some(sha),
            line: edges + subject,
        }),
        !subject.contains(SEP) ==> !parsed_row(marked_line(edges, sha, subject)).line.contains(SEP),
{
    assert(!sha.contains(SEP));
    first_pair_of_separators_counts(edges, sha, subject);
}

/// A line with no separator, such as a row of graph edges, and a line with only one are displayed
/// as they are and belong to no commit.
pub proof fn unpaired_separator_leaves_the_line(line: Seq<char>)
    requires
        forall|i: int, j: int|
            0 <= i < j < line.len() ==> #[trigger] line[i] != SEP || #[trigger] line[j] != SEP,
    ensures
        parsed_row(line).line == line,
        parsed_row(line).sha is None,
{
    line.index_of_first_ensures(SEP);
    if let Some(first) = line.index_of_first(SEP) {
        let rest = line.skip(first + 1);
        rest.index_of_first_ensures(SEP);
        if let Some(second) = rest.index_of_first(SEP) {
            assert(line[first + 1 + second] == SEP);
        }
    }
}

/// Every id that reading an output gives is a valid one.
pub proof fn ids_read_are_valid(text: Seq<char>, i: int)
    requires
        0 <= i < log_rows(text).len(),
        log_rows(text)[i].sha is Some,
    ensures
        valid_sha(log_rows(text)[i].sha->0),
{
    assert(log_rows(text)[i] == parsed_row(crate::text::text_lines(text)[i]));
}

/// A valid id is never taken for an option, a path or a revision expression: it starts with no
/// dash and holds only letters and digits of ASCII.
pub proof fn valid_id_is_no_option(s: Seq<char>)
    requires
        valid_sha(s),
    ensures
        s.len() > 0,
        s[0] != '-',
        vstd::utf8::is_ascii_chars(s),
        forall|i: int|
            0 <= i < s.len() ==> {
                let c = #[trigger] s[i];
                '0' <= c <= '9' || 'a' <= c <= 'z' || 'A' <= c <= 'Z'
            },
{
    assert(is_hex_digit(s[0]));
    assert forall|i: int| 0 <= i < s.len() implies {
        let c = #[trigger] s[i];
        '0' <= c <= '9' || 'a' <= c <= 'z' || 'A' <= c <= 'Z'
    } by {
        assert(is_hex_digit(s[i]));
    }
}

/// An output of whole lines gives one row for each line, in order.
pub proof fn log_is_read_row_by_row(lines: Seq<Seq<char>>)
    requires
        forall|i: int|
            0 <= i < lines.len() ==> !(#[trigger] lines[i]).contains('\n') && crate::text::without_cr(
                lines[i],
            ) == lines[i],
    ensures
        log_rows(crate::text::terminated(lines)) == lines.map_values(
            |line: Seq<char>| parsed_row(line),
        ),
{
    crate::text::lines_are_read_back(lines);
}

/// Every page is printed by the read-only subcommand `log`, and pages that start or end
/// differently, or walk other refs, are asked for differently.
pub proof fn pages_are_asked_for_apart(
    all: bool,
    skip: nat,
    limit: nat,
    all2: bool,
    skip2: nat,
    limit2: nat,
)
    ensures
        log_arguments(all, skip, limit)[0] == "log"@,
        log_arguments(all, skip, limit) == log_arguments(all2, skip2, limit2) ==> all == all2
            && skip == skip2 && limit == limit2,
{
    let a = log_arguments(all, skip, limit);
    let b = log_arguments(all2, skip2, limit2);
    if a == b {
        assert(a.len() == b.len());
        crate::text::decimal_is_read_back(limit);
        crate::text::decimal_is_read_back(limit2);
        crate::text::decimal_is_read_back(skip);
        crate::text::decimal_is_read_back(skip2);
        assert(a[4] == "-n"@ + crate::text::decimal(limit));
        assert(b[4] == "-n"@ + crate::text::decimal(limit2));
        assert(a[5] == "--skip="@ + crate::text::decimal(skip));
        assert(b[5] == "--skip="@ + crate::text::decimal(skip2));
        let n = "-n"@.len() as int;
        let m = "--skip="@.len() as int;
        assert(a[4].skip(n) == crate::text::decimal(limit));
        assert(b[4].skip(n) == crate::text::decimal(limit2));
        assert(a[5].skip(m) == crate::text::decimal(skip));
        assert(b[5].skip(m) == crate::text::decimal(skip2));
    }
}

} // verus!
