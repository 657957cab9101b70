//! The session state of the graph section under the file tree, and its intents: showing and
//! hiding it, the all-branches scope, the divider, the cursor with paging, copying a commit id.
//!
//! Git, the clipboard and the renderer of display lines are injected. Of what they answer nothing
//! is known here, so each intent states what it hands to them and what it makes of every answer.
use crate::history::{CommitRow, PAGE};
use crate::presenter::{first_line, Focus, GraphView, PctRange, ViewState};
use ratatui::text::Line;
use vstd::prelude::*;

verus! {

/// How many percentage points one keypress moves the divider between tree and graph.
pub const GRAPH_PCT_STEP: u16 = 10;

/// The next page is loaded when the cursor comes within this many rows of the loaded end.
pub const LOAD_MORE_MARGIN: usize = 10;

/// How many characters of a commit id the short form has.
pub const SHORT_ID: usize = 7;

/// Read-only access to the history of the repository. A service may keep account of what it is
/// asked, so no request goes unnoticed.
pub trait GitService {
    /// One page of the commit graph: the rows of at most `limit` commits after the first `skip`
    /// ones, of `HEAD` or, with `all`, of every ref.
    fn log_graph(&mut self, all: bool, skip: usize, limit: usize) -> Vec<CommitRow>;
}

/// Ingests display lines of unknown origin: neutralizes escapes and maps the styling.
pub trait LineRenderer {
    /// The lines of the text that `line` is shown as.
    fn to_text(&self, line: &str) -> Vec<Line<'static>>;
}

/// The clipboard.
pub trait Clipboard {
    /// Copies `text`, or says why that failed.
    fn copy(&mut self, text: &str) -> Result<(), String>;
}

/// What the event loop has to do after an intent.
#[derive(Debug, Clone, Copy, PartialEq, Eq, Structural)]
pub struct Effects {
    pub redraw: bool,
    pub quit: bool,
}

impl Effects {
    pub open spec fn is_noop(self) -> bool {
        !self.redraw && !self.quit
    }

    pub open spec fn is_redraw(self) -> bool {
        self.redraw && !self.quit
    }

    /// Nothing has changed.
    pub fn noop() -> (fx: Self)
        ensures
            fx.is_noop(),
    {
        Effects { redraw: false, quit: false }
    }

    /// The screen has to be drawn again.
    pub fn redraw() -> (fx: Self)
        ensures
            fx.is_redraw(),
    {
        Effects { redraw: true, quit: false }
    }
}

/// The loaded part of the commit graph, abstractly.
pub struct GraphModel {
    /// The loaded rows, in display order.
    pub rows: Seq<CommitRow>,
    /// The ingested display lines of the rows.
    pub lines: Seq<Line<'static>>,
    /// The index of the selected row.
    pub cursor: int,
    /// Whether the walk covers all refs.
    pub all: bool,
    /// How many commits have been loaded.
    pub commits: nat,
    /// Whether the history is fully loaded.
    pub exhausted: bool,
}

/// The number of rows that belong to a commit.
pub open spec fn commit_count(rows: Seq<CommitRow>) -> nat {
    rows.filter(|row: CommitRow| row.sha is Some).len()
}

/// The service may answer with `page` when it is asked once for a page. It is `*service` before
/// the request and `*final(service)` after it.
pub open spec fn git_answers<G: GitService>(
    service: &mut G,
    all: bool,
    skip: nat,
    limit: nat,
    page: Vec<CommitRow>,
) -> bool {
    call_ensures(G::log_graph, (service, all, skip as usize, limit as usize), page)
}

/// `line` is what one row is shown as: the renderer may answer the display line of the row with a
/// text that `line` is the first line of.
pub open spec fn ingested<R: LineRenderer>(
    renderer: R,
    row: CommitRow,
    line: Line<'static>,
) -> bool {
    exists|shown: &str, text: Vec<Line<'static>>|
        {
            &&& shown@ == row.line@
            &&& #[trigger] call_ensures(R::to_text, (&renderer, shown), text)
            &&& crate::presenter::is_first_line(text@, line)
        }
}

impl GraphModel {
    /// The graph before anything is loaded.
    pub open spec fn empty(all: bool) -> Self {
        GraphModel {
            rows: Seq::empty(),
            lines: Seq::empty(),
            cursor: 0,
            all,
            commits: 0,
            exhausted: false,
        }
    }

    /// Each row has its display line, the cursor is on a row if there is one, and the commits are
    /// counted.
    pub open spec fn is_aligned(self) -> bool {
        &&& self.lines.len() == self.rows.len()
        &&& 0 <= self.cursor
        &&& self.cursor < self.rows.len() || self.rows.len() == 0 && self.cursor == 0
        &&& self.commits == commit_count(self.rows)
    }

    /// A graph with at least its first page loaded: only after a full page can there be more.
    pub open spec fn wf(self) -> bool {
        &&& self.is_aligned()
        &&& !self.exhausted ==> self.commits >= PAGE
    }

    /// The graph with a page of rows and their display lines appended. A page with fewer commits
    /// than were asked for is the last one.
    pub open spec fn appended(self, page: Seq<CommitRow>, lines: Seq<Line<'static>>) -> Self {
        GraphModel {
            rows: self.rows + page,
            lines: self.lines + lines,
            commits: self.commits + commit_count(page),
            exhausted: self.exhausted || commit_count(page) < PAGE,
            ..self
        }
    }

    /// `after` is this graph with `page` appended, each of its rows ingested by `renderer`.
    pub open spec fn grows_to<R: LineRenderer>(
        self,
        page: Seq<CommitRow>,
        renderer: R,
        after: Self,
    ) -> bool {
        let lines = after.lines.skip(self.lines.len() as int);
        &&& lines.len() == page.len()
        &&& forall|i: int|
            0 <= i < page.len() ==> ingested(renderer, page[i], #[trigger] lines[i])
        &&& after == self.appended(page, lines)
    }

    /// This graph holds what the service answers when it is asked once for the first page,
    /// ingested by `renderer`, and nothing else.
    pub open spec fn is_fresh<G: GitService, R: LineRenderer>(
        self,
        service: &mut G,
        renderer: R,
        all: bool,
    ) -> bool {
        exists|page: Vec<CommitRow>| #[trigger]
            git_answers(service, all, 0, PAGE as nat, page) && GraphModel::empty(all).grows_to(
                page@,
                renderer,
                self,
            )
    }

    /// The index of the loaded row that is closest to `row`.
    pub open spec fn nearest_row(self, row: int) -> int {
        if row < 0 {
            0
        } else if row >= self.rows.len() {
            self.rows.len() - 1
        } else {
            row
        }
    }

    /// The graph with the cursor on the loaded row that is closest to `row`.
    pub open spec fn with_cursor_at(self, row: int) -> Self {
        GraphModel { cursor: self.nearest_row(row), ..self }
    }

    /// The cursor is near the loaded end and more history remains.
    pub open spec fn needs_more(self) -> bool {
        !self.exhausted && self.cursor + LOAD_MORE_MARGIN >= self.rows.len()
    }

    /// `after` is this graph with the next page appended, which the service is asked for once and
    /// `renderer` ingests.
    pub open spec fn is_fed<G: GitService, R: LineRenderer>(
        self,
        service: &mut G,
        renderer: R,
        after: Self,
    ) -> bool {
        exists|page: Vec<CommitRow>| #[trigger]
            git_answers(service, self.all, self.commits, PAGE as nat, page) && self.grows_to(
                page@,
                renderer,
                after,
            )
    }

    /// The id of the commit on the selected row, in its full or its short form.
    pub open spec fn selected_id(self, full: bool) -> Option<Seq<char>> {
        if 0 <= self.cursor < self.rows.len() {
            match self.rows[self.cursor].sha {
                Some(sha) => Some(
                    if full {
                        sha@
                    } else {
                        short_id(sha@)
                    },
                ),
                None => None,
            }
        } else {
            None
        }
    }

    pub open spec fn title(self) -> Seq<char> {
        if self.all {
            "History · all"@
        } else {
            "History"@
        }
    }
}

proof fn count_of_appended(a: Seq<CommitRow>, b: Seq<CommitRow>)
    ensures
        commit_count(a + b) == commit_count(a) + commit_count(b),
{
    Seq::filter_distributes_over_add(a, b, |row: CommitRow| row.sha is Some);
}

proof fn count_of_one_more(rows: Seq<CommitRow>, i: int)
    requires
        0 <= i < rows.len(),
    ensures
        commit_count(rows.take(i + 1)) == commit_count(rows.take(i)) + if rows[i].sha is Some {
            1nat
        } else {
            0
        },
{
    reveal(Seq::filter);
    assert(rows.take(i + 1).drop_last() == rows.take(i));
}

proof fn count_is_bounded(rows: Seq<CommitRow>)
    ensures
        commit_count(rows) <= rows.len(),
{
    rows.lemma_filter_len(|row: CommitRow| row.sha is Some);
}

/// The short form of a commit id: its first characters, or all of it if there are no more.
pub open spec fn short_id(sha: Seq<char>) -> Seq<char> {
    if sha.len() <= SHORT_ID {
        sha
    } else {
        sha.take(SHORT_ID as int)
    }
}

/// The graph section's session state.
pub struct GraphState {
    rows: Vec<CommitRow>,
    lines: Vec<Line<'static>>,
    cursor: usize,
    all: bool,
    commits: usize,
    exhausted: bool,
}

impl View for GraphState {
    type V = GraphModel;

    closed spec fn view(&self) -> GraphModel {
        GraphModel {
            rows: self.rows@,
            lines: self.lines@,
            cursor: self.cursor as int,
            all: self.all,
            commits: self.commits as nat,
            exhausted: self.exhausted,
        }
    }
}

impl GraphState {
    /// The state after the first page has been loaded.
    pub fn from_page<R: LineRenderer>(rows: Vec<CommitRow>, all: bool, renderer: &R) -> (state:
        Self)
        ensures
            GraphModel::empty(all).grows_to(rows@, *renderer, state@),
            state@.wf(),
    {
        let mut state = GraphState {
            rows: Vec::new(),
            lines: Vec::new(),
            cursor: 0,
            all,
            commits: 0,
            exhausted: false,
        };
        assert(state@ == GraphModel::empty(all));
        state.append_page(rows, renderer);
        state
    }

    /// Appends one loaded page: ingests its display lines, once and not for each frame, and
    /// advances the paging state.
    pub fn append_page<R: LineRenderer>(&mut self, page: Vec<CommitRow>, renderer: &R)
        requires
            old(self)@.is_aligned(),
        ensures
            old(self)@.grows_to(page@, *renderer, final(self)@),
            final(self)@.wf(),
    {
        let ghost before = self@;
        let mut page = page;
        let ghost rows = page@;
        let mut commits: usize = 0;
        let mut i: usize = 0;
        while i < page.len()
            invariant
                i <= page.len(),
                page@ == rows,
                commits <= i,
                commits == commit_count(rows.take(i as int)),
                self@ == (GraphModel { lines: self@.lines, ..before }),
                self@.lines.len() == before.lines.len() + i,
                self@.lines.take(before.lines.len() as int) == before.lines,
                forall|j: int|
                    0 <= j < i ==> ingested(
                        *renderer,
                        rows[j],
                        #[trigger] self@.lines[before.lines.len() + j],
                    ),
            decreases page.len() - i,
        {
            let shown = page[i].line.as_str();
            let line = first_line(renderer.to_text(shown));
            proof {
                count_of_one_more(rows, i as int);
            }
            if page[i].sha.is_some() {
                commits = commits + 1;
            }
            self.lines.push(line);
            i = i + 1;
        }
        self.rows.append(&mut page);
        proof {
            assert(self.rows.len() <= usize::MAX);
            assert(rows.take(i as int) == rows);
            count_of_appended(before.rows, rows);
            count_is_bounded(self.rows@);
        }
        if commits < PAGE {
            self.exhausted = true;
        }
        self.commits = self.commits + commits;
        proof {
            let lines = self@.lines.skip(before.lines.len() as int);
            assert(self@.lines == before.lines + lines);
            assert forall|j: int| 0 <= j < rows.len() implies ingested(
                *renderer,
                rows[j],
                #[trigger] lines[j],
            ) by {
                assert(lines[j] == self@.lines[before.lines.len() + j]);
            }
            assert(self@ == before.appended(rows, lines));
        }
    }
}

/// The commits that a state counts can be counted by the machine.
pub proof fn loaded_commits_fit(state: GraphState)
    ensures
        state@.commits <= usize::MAX,
{
}

/// What the section needs from outside.
pub struct Components<G, R, C> {
    pub git: G,
    pub renderer: R,
    pub clipboard: C,
}

/// The state of the section, abstractly.
pub struct ControllerModel {
    pub is_git_repo: bool,
    /// `None` while the section is hidden.
    pub graph: Option<GraphModel>,
    pub focus: Focus,
    pub graph_pct: int,
    pub pct_range: PctRange,
    /// The first row of the graph that is drawn.
    pub graph_scroll: int,
    pub action_notice: Option<Seq<char>>,
}

impl ControllerModel {
    /// The graph is loaded properly, the keys never go to a hidden graph, and the divider leaves
    /// room on both sides.
    pub open spec fn wf(self) -> bool {
        &&& self.graph matches Some(graph) ==> graph.wf()
        &&& self.focus == Focus::Graph ==> self.graph is Some
        &&& self.pct_range.wf()
        &&& self.pct_range.min <= self.graph_pct <= self.pct_range.max
    }

    /// The section closed, and the focus back on the tree.
    pub open spec fn hidden(self) -> Self {
        ControllerModel { graph: None, focus: Focus::Tree, ..self }
    }

    /// The section open on `graph`, with the focus.
    pub open spec fn shown(self, graph: GraphModel) -> Self {
        ControllerModel { graph: Some(graph), focus: Focus::Graph, ..self }
    }

    /// The section showing `graph`, all else unchanged.
    pub open spec fn with_graph(self, graph: GraphModel) -> Self {
        ControllerModel { graph: Some(graph), ..self }
    }

    /// The divider moved by `delta` percentage points, as far as the range admits. Nothing moves
    /// while the section is hidden.
    pub open spec fn resized(self, delta: int) -> Self {
        if self.graph is Some {
            ControllerModel { graph_pct: self.pct_range.nearest(self.graph_pct + delta), ..self }
        } else {
            self
        }
    }

    /// The state with the cursor on the loaded row closest to `row`. An empty or hidden graph stays
    /// as it is.
    pub open spec fn with_cursor_at(self, row: int) -> Self {
        if self.has_rows() {
            self.with_graph(self.graph->0.with_cursor_at(row))
        } else {
            self
        }
    }

    /// The cursor is near the loaded end and more history remains.
    pub open spec fn needs_more(self) -> bool {
        self.graph matches Some(graph) && graph.needs_more()
    }

    /// `after` is this state with the next page appended, which the service is asked for once and
    /// `renderer` ingests.
    pub open spec fn is_fed<G: GitService, R: LineRenderer>(
        self,
        service: &mut G,
        renderer: R,
        after: Self,
    ) -> bool {
        &&& self.graph matches Some(graph)
        &&& after.graph matches Some(grown)
        &&& graph.is_fed(service, renderer, grown)
        &&& after == self.with_graph(grown)
    }

    /// There is a row for the cursor to be on.
    pub open spec fn has_rows(self) -> bool {
        self.graph matches Some(graph) && graph.rows.len() > 0
    }

    /// The region that comes after the focused one. While the graph is open, content, tree and
    /// graph follow each other; while it is hidden, content and tree do.
    pub open spec fn next_focus(self) -> Focus {
        match self.focus {
            Focus::Graph => Focus::Content,
            Focus::Content => Focus::Tree,
            Focus::Tree => if self.graph is Some {
                Focus::Graph
            } else {
                Focus::Content
            },
        }
    }

    /// The id that a copy takes, if the selected row belongs to a commit.
    pub open spec fn selected_id(self, full: bool) -> Option<Seq<char>> {
        match self.graph {
            Some(graph) => graph.selected_id(full),
            None => None,
        }
    }

    /// `view` is the draw model of the section.
    pub open spec fn is_drawn_as(self, view: Option<GraphView>) -> bool {
        match self.graph {
            None => view is None,
            Some(graph) => {
                &&& view matches Some(v)
                &&& v.lines@ == graph.lines
                &&& v.cursor == graph.cursor
                &&& v.scroll == self.graph_scroll
                &&& v.title@ == graph.title()
            },
        }
    }
}

/// What the user is told after `text` was handed to the clipboard.
pub open spec fn copy_notice(text: Seq<char>, reply: Result<(), String>) -> Seq<char> {
    match reply {
        Ok(_) => "Copied "@ + text,
        Err(reason) => "Could not copy commit id: "@ + reason@,
    }
}

/// The commits that a controller counts can be counted by the machine.
pub proof fn shown_commits_fit<G, R, C>(ctrl: Controller<G, R, C>)
    ensures
        ctrl@.graph matches Some(graph) ==> graph.commits <= usize::MAX,
{
    if let Some(state) = ctrl.graph {
        loaded_commits_fit(state);
    }
}

/// The controller of the graph section.
pub struct Controller<G, R, C> {
    is_git_repo: bool,
    graph: Option<GraphState>,
    focus: Focus,
    graph_pct: u16,
    pct_range: PctRange,
    action_notice: Option<String>,
    graph_scroll: usize,
    git: G,
    renderer: R,
    clipboard: C,
}

impl<G, R, C> View for Controller<G, R, C> {
    type V = ControllerModel;

    closed spec fn view(&self) -> ControllerModel {
        ControllerModel {
            is_git_repo: self.is_git_repo,
            graph: match self.graph {
                Some(graph) => Some(graph@),
                None => None,
            },
            focus: self.focus,
            graph_pct: self.graph_pct as int,
            pct_range: self.pct_range,
            graph_scroll: self.graph_scroll as int,
            action_notice: match self.action_notice {
                Some(notice) => Some(notice@),
                None => None,
            },
        }
    }
}

impl<G, R, C> Controller<G, R, C> {
    pub closed spec fn git(self) -> G {
        self.git
    }

    pub closed spec fn renderer(self) -> R {
        self.renderer
    }

    pub closed spec fn clipboard(self) -> C {
        self.clipboard
    }

    /// Git and the renderer are those of `other`.
    pub open spec fn reads_from(self, other: Self) -> bool {
        self.git() == other.git() && self.renderer() == other.renderer()
    }

    /// The renderer and the clipboard are those of `other`.
    pub open spec fn shows_through(self, other: Self) -> bool {
        self.renderer() == other.renderer() && self.clipboard() == other.clipboard()
    }

    /// All that is injected is that of `other`.
    pub open spec fn keeps_components(self, other: Self) -> bool {
        self.git() == other.git() && self.shows_through(other)
    }
}

impl<G: GitService, R: LineRenderer, C: Clipboard> Controller<G, R, C> {
    /// The controller at launch: the section is hidden, and the tree has the focus.
    pub fn new(
        is_git_repo: bool,
        graph_pct: u16,
        pct_range: PctRange,
        components: Components<G, R, C>,
    ) -> (ctrl: Self)
        requires
            pct_range.wf(),
            pct_range.min <= graph_pct <= pct_range.max,
        ensures
            ctrl@ == (ControllerModel {
                is_git_repo,
                graph: None,
                focus: Focus::Tree,
                graph_pct: graph_pct as int,
                pct_range,
                graph_scroll: 0,
                action_notice: None,
            }),
            ctrl@.wf(),
            ctrl.git() == components.git,
            ctrl.renderer() == components.renderer,
            ctrl.clipboard() == components.clipboard,
    {
        Controller {
            is_git_repo,
            graph: None,
            focus: Focus::Tree,
            graph_pct,
            pct_range,
            action_notice: None,
            graph_scroll: 0,
            git: components.git,
            renderer: components.renderer,
            clipboard: components.clipboard,
        }
    }

    /// Shows or hides the section. Showing it loads the first page of the current branch and
    /// focuses it; hiding it returns the focus to the tree. Nothing is shown outside a repository.
    pub fn toggle_graph(&mut self) -> (fx: Effects)
        requires
            old(self)@.wf(),
        ensures
            final(self)@.wf(),
            final(self).shows_through(*old(self)),
            old(self)@.graph is Some ==> final(self)@ == old(self)@.hidden() && final(self).git()
                == old(self).git() && fx.is_redraw(),
            old(self)@.graph is None && !old(self)@.is_git_repo ==> final(self)@ == old(self)@
                && final(self).git() == old(self).git() && fx.is_noop(),
            old(self)@.graph is None && old(self)@.is_git_repo ==> {
                &&& fx.is_redraw()
                &&& final(self)@.graph is Some
                &&& final(self)@ == old(self)@.shown(final(self)@.graph->0)
                &&& exists|service: &mut G|
                    {
                        &&& *service == old(self).git()
                        &&& *final(service) == final(self).git()
                        &&& #[trigger] final(self)@.graph->0.is_fresh(
                            service,
                            old(self).renderer(),
                            false,
                        )
                    }
            },
    {
        if self.graph.is_some() {
            self.graph = None;
            self.focus = Focus::Tree;
            return Effects::redraw();
        }
        if !self.is_git_repo {
            return Effects::noop();
        }
        let rows = self.git.log_graph(false, 0, PAGE);
        let ghost page = rows;
        self.graph = Some(GraphState::from_page(rows, false, &self.renderer));
        self.focus = Focus::Graph;
        proof {
            let service = choose|service: &mut G|
                {
                    &&& *service == old(self).git()
                    &&& *final(service) == self.git()
                    &&& #[trigger] call_ensures(
                        G::log_graph,
                        (service, false, 0usize, PAGE),
                        page,
                    )
                };
            assert(git_answers(service, false, 0, PAGE as nat, page));
            assert(self@.graph->0.is_fresh(service, old(self).renderer(), false));
        }
        Effects::redraw()
    }

    /// Switches the graph between the history of the current branch and that of all branches. The
    /// first page is loaded anew, and the selection starts at the top. Nothing happens while the
    /// section is hidden.
    pub fn toggle_all_branches(&mut self) -> (fx: Effects)
        requires
            old(self)@.wf(),
        ensures
            final(self)@.wf(),
            final(self).shows_through(*old(self)),
            old(self)@.graph is None ==> final(self)@ == old(self)@ && final(self).git()
                == old(self).git() && fx.is_noop(),
            old(self)@.graph matches Some(before) ==> {
                &&& fx.is_redraw()
                &&& final(self)@.graph matches Some(graph) && graph.all == !before.all
                &&& final(self)@ == old(self)@.with_graph(final(self)@.graph->0)
                &&& exists|service: &mut G|
                    {
                        &&& *service == old(self).git()
                        &&& *final(service) == final(self).git()
                        &&& #[trigger] final(self)@.graph->0.is_fresh(
                            service,
                            old(self).renderer(),
                            final(self)@.graph->0.all,
                        )
                    }
            },
    {
        let all = match &self.graph {
            Some(graph) => !graph.all,
            None => {
                return Effects::noop();
            },
        };
        let rows = self.git.log_graph(all, 0, PAGE);
        let ghost page = rows;
        self.graph = Some(GraphState::from_page(rows, all, &self.renderer));
        proof {
            let service = choose|service: &mut G|
                {
                    &&& *service == old(self).git()
                    &&& *final(service) == self.git()
                    &&& #[trigger] call_ensures(
                        G::log_graph,
                        (service, all, 0usize, PAGE),
                        page,
                    )
                };
            assert(git_answers(service, all, 0, PAGE as nat, page));
            assert(self@.graph->0.is_fresh(service, old(self).renderer(), self@.graph->0.all));
        }
        Effects::redraw()
    }

    /// Shrinks the section by one step.
    pub fn shrink_graph(&mut self) -> (fx: Effects)
        requires
            old(self)@.wf(),
        ensures
            final(self)@.wf(),
            final(self).keeps_components(*old(self)),
            final(self)@ == old(self)@.resized(-(GRAPH_PCT_STEP as int)),
            old(self)@.graph is Some ==> fx.is_redraw(),
            old(self)@.graph is None ==> fx.is_noop(),
    {
        self.resize_graph(-(GRAPH_PCT_STEP as i16))
    }

    /// Grows the section by one step.
    pub fn grow_graph(&mut self) -> (fx: Effects)
        requires
            old(self)@.wf(),
        ensures
            final(self)@.wf(),
            final(self).keeps_components(*old(self)),
            final(self)@ == old(self)@.resized(GRAPH_PCT_STEP as int),
            old(self)@.graph is Some ==> fx.is_redraw(),
            old(self)@.graph is None ==> fx.is_noop(),
    {
        self.resize_graph(GRAPH_PCT_STEP as i16)
    }

    /// Moves the divider between tree and graph by `delta` percentage points, as far as the range
    /// admits.
    pub fn resize_graph(&mut self, delta: i16) -> (fx: Effects)
        requires
            old(self)@.wf(),
            old(self)@.graph is Some ==> old(self)@.graph_pct + delta <= i16::MAX,
        ensures
            final(self)@.wf(),
            final(self).keeps_components(*old(self)),
            final(self)@ == old(self)@.resized(delta as int),
            old(self)@.graph is Some ==> fx.is_redraw(),
            old(self)@.graph is None ==> fx.is_noop(),
    {
        if self.graph.is_none() {
            return Effects::noop();
        }
        let moved: i16 = self.graph_pct as i16 + delta;
        let min: i16 = self.pct_range.min as i16;
        let max: i16 = self.pct_range.max as i16;
        let next: i16 = if moved < min {
            min
        } else if moved > max {
            max
        } else {
            moved
        };
        self.graph_pct = next as u16;
        Effects::redraw()
    }

    /// Moves the cursor by `delta` rows, and loads the next page when it comes near the loaded
    /// end.
    pub fn graph_move(&mut self, delta: isize) -> (fx: Effects)
        requires
            old(self)@.wf(),
        ensures
            final(self)@.wf(),
            final(self).shows_through(*old(self)),
            ({
                let put = old(self)@.with_cursor_at(old(self)@.graph->0.cursor + delta);
                if put.needs_more() {
                    exists|service: &mut G|
                        {
                            &&& *service == old(self).git()
                            &&& *final(service) == final(self).git()
                            &&& #[trigger] put.is_fed(service, old(self).renderer(), final(self)@)
                        }
                } else {
                    final(self)@ == put && final(self).git() == old(self).git()
                }
            }),
            old(self)@.has_rows() ==> fx.is_redraw(),
            !old(self)@.has_rows() ==> fx.is_noop(),
    {
        match &mut self.graph {
            Some(graph) => {
                if graph.rows.len() == 0 {
                    proof {
                        count_is_bounded(old(self)@.graph->0.rows);
                    }
                    return Effects::noop();
                }
                let max: usize = graph.rows.len() - 1;
                let cursor: usize = graph.cursor;
                if delta >= 0 {
                    let down: usize = delta as usize;
                    graph.cursor = if down > max - cursor {
                        max
                    } else {
                        cursor + down
                    };
                } else {
                    let up: usize = (-(delta + 1)) as usize;
                    graph.cursor = if up >= cursor {
                        0
                    } else {
                        cursor - up - 1
                    };
                }
            },
            None => {
                return Effects::noop();
            },
        }
        assert(self@ == old(self)@.with_cursor_at(old(self)@.graph->0.cursor + delta));
        self.maybe_load_more();
        Effects::redraw()
    }

    /// Puts the cursor on a row, or on the last one if there are fewer, and loads the next page
    /// when it comes near the loaded end.
    pub fn graph_set_cursor(&mut self, idx: usize)
        requires
            old(self)@.wf(),
        ensures
            final(self)@.wf(),
            final(self).shows_through(*old(self)),
            ({
                let put = old(self)@.with_cursor_at(idx as int);
                if put.needs_more() {
                    exists|service: &mut G|
                        {
                            &&& *service == old(self).git()
                            &&& *final(service) == final(self).git()
                            &&& #[trigger] put.is_fed(service, old(self).renderer(), final(self)@)
                        }
                } else {
                    final(self)@ == put && final(self).git() == old(self).git()
                }
            }),
    {
        match &mut self.graph {
            Some(graph) => {
                if graph.rows.len() == 0 {
                    proof {
                        count_is_bounded(old(self)@.graph->0.rows);
                    }
                    return;
                }
                let max: usize = graph.rows.len() - 1;
                graph.cursor = if idx < max {
                    idx
                } else {
                    max
                };
            },
            None => {
                return;
            },
        }
        assert(self@ == old(self)@.with_cursor_at(idx as int));
        self.maybe_load_more();
    }

    /// What git has to be asked for next, as the scope, the number of commits to skip and the
    /// number of commits to load; `None` if nothing is to be asked, because the section is hidden,
    /// the history is finished or enough rows lie ahead of the cursor.
    pub fn next_page(&self) -> (ask: Option<(bool, usize, usize)>)
        ensures
            match self@.graph {
                Some(graph) if graph.needs_more() => ask matches Some((all, skip, limit)) && all
                    == graph.all && skip == graph.commits && limit == PAGE,
                _ => ask is None,
            },
    {
        let Some(graph) = &self.graph else {
            return None;
        };
        let loaded: usize = graph.rows.len();
        if graph.exhausted || (loaded > LOAD_MORE_MARGIN && graph.cursor < loaded
            - LOAD_MORE_MARGIN) {
            return None;
        }
        Some((graph.all, graph.commits, PAGE))
    }

    /// Loads and appends the page that `next_page` names, if it names one. A finished history is
    /// not asked again.
    pub fn maybe_load_more(&mut self)
        requires
            old(self)@.wf(),
        ensures
            final(self)@.wf(),
            final(self).shows_through(*old(self)),
            if old(self)@.needs_more() {
                exists|service: &mut G|
                    {
                        &&& *service == old(self).git()
                        &&& *final(service) == final(self).git()
                        &&& #[trigger] old(self)@.is_fed(
                            service,
                            old(self).renderer(),
                            final(self)@,
                        )
                    }
            } else {
                final(self)@ == old(self)@ && final(self).git() == old(self).git()
            },
    {
        let Some((all, skip, limit)) = self.next_page() else {
            return;
        };
        let rows = self.git.log_graph(all, skip, limit);
        let ghost page = rows;
        if let Some(graph) = &mut self.graph {
            graph.append_page(rows, &self.renderer);
        }
        proof {
            let service = choose|service: &mut G|
                {
                    &&& *service == old(self).git()
                    &&& *final(service) == self.git()
                    &&& #[trigger] call_ensures(
                        G::log_graph,
                        (service, all, skip, PAGE),
                        page,
                    )
                };
            let graph = old(self)@.graph->0;
            assert(git_answers(service, graph.all, graph.commits, PAGE as nat, page));
            assert(graph.is_fed(service, old(self).renderer(), self@.graph->0));
            assert(old(self)@.is_fed(service, old(self).renderer(), self@));
        }
    }

    /// The text that copying the selected commit's id hands to the clipboard: the short id or the
    /// full one; `None` if no commit is selected.
    pub fn copy_text(&self, full: bool) -> (text: Option<String>)
        ensures
            match self@.selected_id(full) {
                Some(id) => text matches Some(t) && t@ == id,
                None => text is None,
            },
    {
        let Some(graph) = &self.graph else {
            return None;
        };
        if graph.cursor >= graph.rows.len() {
            return None;
        }
        let Some(sha) = &graph.rows[graph.cursor].sha else {
            return None;
        };
        if full {
            Some(sha.clone())
        } else {
            let n: usize = sha.as_str().unicode_len();
            if n <= SHORT_ID {
                Some(sha.clone())
            } else {
                Some(sha.as_str().substring_char(0, SHORT_ID).to_owned())
            }
        }
    }

    /// Tells the user what came of handing `text` to the clipboard.
    pub fn note_copy(&mut self, text: &str, reply: Result<(), String>)
        ensures
            final(self).keeps_components(*old(self)),
            final(self)@ == (ControllerModel {
                action_notice: Some(copy_notice(text@, reply)),
                ..old(self)@
            }),
    {
        let notice = match reply {
            Ok(_) => {
                let mut notice = "Copied ".to_owned();
                notice.append(text);
                notice
            },
            Err(reason) => {
                let mut notice = "Could not copy commit id: ".to_owned();
                notice.append(reason.as_str());
                notice
            },
        };
        self.action_notice = Some(notice);
    }

    /// Copies the selected commit's short or full id to the clipboard, and tells the user what
    /// came of it. Nothing happens if no commit is selected.
    pub fn copy_commit_sha(&mut self, full: bool) -> (fx: Effects)
        requires
            old(self)@.wf(),
        ensures
            final(self)@.wf(),
            final(self).reads_from(*old(self)),
            old(self)@.selected_id(full) is None ==> fx.is_noop() && final(self)@ == old(self)@
                && final(self).keeps_components(*old(self)),
            old(self)@.selected_id(full) matches Some(id) ==> fx.is_redraw() && exists|
                clipboard: &mut C,
                text: &str,
                reply: Result<(), String>,
            |
                {
                    &&& *clipboard == old(self).clipboard()
                    &&& *final(clipboard) == final(self).clipboard()
                    &&& text@ == id
                    &&& #[trigger] call_ensures(C::copy, (clipboard, text), reply)
                    &&& final(self)@ == (ControllerModel {
                        action_notice: Some(copy_notice(id, reply)),
                        ..old(self)@
                    })
                },
    {
        let Some(text) = self.copy_text(full) else {
            return Effects::noop();
        };
        let reply = self.clipboard.copy(text.as_str());
        self.note_copy(text.as_str(), reply);
        Effects::redraw()
    }

    /// Moves the focus to the next region.
    pub fn toggle_focus(&mut self) -> (fx: Effects)
        requires
            old(self)@.wf(),
        ensures
            final(self)@.wf(),
            final(self).keeps_components(*old(self)),
            final(self)@ == (ControllerModel { focus: old(self)@.next_focus(), ..old(self)@ }),
            fx.is_redraw(),
    {
        let next = match self.focus {
            Focus::Graph => Focus::Content,
            Focus::Content => Focus::Tree,
            Focus::Tree => if self.graph.is_some() {
                Focus::Graph
            } else {
                Focus::Content
            },
        };
        self.focus = next;
        Effects::redraw()
    }

    /// Sets the first row of the graph that is drawn.
    pub fn set_graph_scroll(&mut self, scroll: usize)
        ensures
            final(self).keeps_components(*old(self)),
            final(self)@ == (ControllerModel { graph_scroll: scroll as int, ..old(self)@ }),
    {
        self.graph_scroll = scroll;
    }

    /// The draw model of the section for this frame, `None` while it is hidden.
    pub fn graph_view(&self) -> (view: Option<GraphView>)
        ensures
            self@.is_drawn_as(view),
    {
        let Some(graph) = &self.graph else {
            return None;
        };
        let title = if graph.all {
            "History · all".to_owned()
        } else {
            "History".to_owned()
        };
        let lines = graph.lines.clone();
        assert(lines@ == graph.lines@);
        Some(GraphView { lines, cursor: graph.cursor, scroll: self.graph_scroll, title })
    }

    /// The draw model for this frame.
    pub fn view_state(&self) -> (view: ViewState)
        ensures
            self@.is_drawn_as(view.graph),
            view.focus == self@.focus,
            view.graph_pct == self@.graph_pct,
            match self@.action_notice {
                Some(notice) => view.action_notice matches Some(n) && n@ == notice,
                None => view.action_notice is None,
            },
    {
        ViewState {
            graph: self.graph_view(),
            focus: self.focus,
            graph_pct: self.graph_pct,
            action_notice: self.action_notice.clone(),
        }
    }
}

} // verus!
