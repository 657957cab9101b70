//! The draw model of the graph section: display lines, focus, the divider between tree and graph.
use ratatui::text::Line;
use vstd::prelude::*;

verus! {

/// `ratatui::text::Line`, a styled line of text. It is carried from the renderer to the screen;
/// nothing here looks inside.
#[verifier::external_type_specification]
#[verifier::external_body]
pub struct ExLine<'a>(Line<'a>);

/// The contents of the spans that make up a line.
pub uninterp spec fn line_spans(line: Line<'static>) -> Seq<Seq<char>>;

/// `Line::default`: a line without spans. That it has no style and no alignment either is left
/// unsaid.
pub assume_specification<'a>[ <Line<'a> as Default>::default ]() -> (line: Line<'a>)
    ensures
        line_spans(line).len() == 0,
;

/// `Line::clone`: an equal line.
pub assume_specification<'a>[ <Line<'a> as Clone>::clone ](line: &Line<'a>) -> (copy: Line<'a>)
    ensures
        copy == *line,
;

/// The line is one that `Line::default` gives.
pub open spec fn is_default_line(line: Line<'static>) -> bool {
    call_ensures(<Line<'static> as Default>::default, (), line)
}

/// `line` stands for a rendered text on one row: it is the first line of the text, and the default
/// line if the text has none.
pub open spec fn is_first_line(text: Seq<Line<'static>>, line: Line<'static>) -> bool {
    if text.len() > 0 {
        line == text[0]
    } else {
        is_default_line(line)
    }
}

/// The line that stands for a rendered text on one row.
pub fn first_line(text: Vec<Line<'static>>) -> (line: Line<'static>)
    ensures
        is_first_line(text@, line),
        text.len() == 0 ==> line_spans(line).len() == 0,
{
    let mut text = text;
    let first = if text.len() > 0 {
        Some(text.swap_remove(0))
    } else {
        None
    };
    first.unwrap_or_default()
}

/// The regions of the screen that keys can be directed to.
#[derive(Debug, Clone, Copy, PartialEq, Eq, Structural)]
pub enum Focus {
    Tree,
    Content,
    Graph,
}

/// How much of the column the graph section may take, in percent. Neither the tree nor the graph
/// may collapse.
#[derive(Debug, Clone, Copy, PartialEq, Eq, Structural)]
pub struct PctRange {
    pub min: u16,
    pub max: u16,
}

impl PctRange {
    pub open spec fn wf(self) -> bool {
        0 < self.min <= self.max < 100
    }

    /// The percentage in the range that is closest to `pct`.
    pub open spec fn nearest(self, pct: int) -> int {
        if pct < self.min {
            self.min as int
        } else if pct > self.max {
            self.max as int
        } else {
            pct
        }
    }
}

/// The draw model of the graph section.
pub struct GraphView {
    pub lines: Vec<Line<'static>>,
    pub cursor: usize,
    pub scroll: usize,
    pub title: String,
}

/// The draw model of one frame, as far as the graph section has a part in it.
pub struct ViewState {
    /// `None` while the section is hidden.
    pub graph: Option<GraphView>,
    pub focus: Focus,
    pub graph_pct: u16,
    pub action_notice: Option<String>,
}

} // verus!
