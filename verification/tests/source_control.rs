//! The graph section: paging and selection, the three-region focus cycle, the all-branches toggle,
//! resizing, and copying a commit id. Git, the clipboard and the renderer are stubs.
use herdr_file_viewer::controller::{
    Clipboard, Components, Controller, Effects, GitService, LineRenderer,
};
use herdr_file_viewer::history::CommitRow;
use herdr_file_viewer::presenter::{first_line, Focus, PctRange};
use ratatui::text::{Line, Text};
use std::cell::RefCell;
use std::rc::Rc;

const SHA_A: &str = "aaaaaaaaaaaaaaaaaaaaaaaaaaaaaaaaaaaaaaaa";
const SHA_B: &str = "bbbbbbbbbbbbbbbbbbbbbbbbbbbbbbbbbbbbbbbb";
const RANGE: PctRange = PctRange { min: 20, max: 80 };

/// A two-commit history: one page, so that the second is empty.
struct StubGit;
impl GitService for StubGit {
    fn log_graph(&mut self, _all: bool, skip: usize, _limit: usize) -> Vec<CommitRow> {
        if skip > 0 {
            return Vec::new();
        }
        vec![
            CommitRow {
                sha: Some(SHA_A.into()),
                line: "* aaaaaaa first".into(),
            },
            CommitRow {
                sha: None,
                line: "|".into(), // a pure edge row (no id)
            },
            CommitRow {
                sha: Some(SHA_B.into()),
                line: "* bbbbbbb second".into(),
            },
        ]
    }
}

/// A history of `len` commits, each followed by an edge row, that records what it is asked.
#[derive(Clone)]
struct LongGit {
    len: usize,
    asked: Rc<RefCell<Vec<(bool, usize, usize)>>>,
}
impl GitService for LongGit {
    fn log_graph(&mut self, all: bool, skip: usize, limit: usize) -> Vec<CommitRow> {
        self.asked.borrow_mut().push((all, skip, limit));
        let mut rows = Vec::new();
        for i in skip..self.len.min(skip + limit) {
            rows.push(CommitRow {
                sha: Some(format!("{i:08x}")),
                line: format!("* {i}"),
            });
            rows.push(CommitRow {
                sha: None,
                line: "|".into(),
            });
        }
        rows
    }
}

/// Shows a line as it is.
struct StubRenderer;
impl LineRenderer for StubRenderer {
    fn to_text(&self, line: &str) -> Vec<Line<'static>> {
        Text::raw(line.to_string()).lines
    }
}

/// Shows no line at all.
struct NoRenderer;
impl LineRenderer for NoRenderer {
    fn to_text(&self, _line: &str) -> Vec<Line<'static>> {
        Vec::new()
    }
}

/// Records every copy.
#[derive(Clone, Default)]
struct RecordingClipboard(Rc<RefCell<Vec<String>>>);
impl Clipboard for RecordingClipboard {
    fn copy(&mut self, text: &str) -> Result<(), String> {
        self.0.borrow_mut().push(text.to_string());
        Ok(())
    }
}

struct BrokenClipboard;
impl Clipboard for BrokenClipboard {
    fn copy(&mut self, _text: &str) -> Result<(), String> {
        Err("no terminal".to_string())
    }
}

fn over<G: GitService, C: Clipboard>(git: G, clipboard: C) -> Controller<G, StubRenderer, C> {
    Controller::new(
        true,
        40,
        RANGE,
        Components {
            git,
            renderer: StubRenderer,
            clipboard,
        },
    )
}

fn controller_with(
    clip: RecordingClipboard,
) -> Controller<StubGit, StubRenderer, RecordingClipboard> {
    over(StubGit, clip)
}

fn controller() -> Controller<StubGit, StubRenderer, RecordingClipboard> {
    controller_with(RecordingClipboard::default())
}

fn long(len: usize) -> LongGit {
    LongGit {
        len,
        asked: Rc::default(),
    }
}

fn inert(fx: Effects) -> bool {
    !fx.redraw && !fx.quit
}

#[test]
fn g_toggles_the_graph_section_and_focuses_it() {
    let mut ctrl = controller();
    assert!(ctrl.view_state().graph.is_none(), "hidden at launch");

    ctrl.toggle_graph();
    let view = ctrl.view_state();
    let graph = view.graph.expect("graph section open after g");
    assert_eq!(graph.lines.len(), 3, "the stub page's rows are loaded");
    assert_eq!(view.focus, Focus::Graph, "opening focuses the graph");

    ctrl.toggle_graph();
    let view = ctrl.view_state();
    assert!(view.graph.is_none(), "a second g closes the section");
    assert_eq!(view.focus, Focus::Tree, "focus returns to the tree");
}

#[test]
fn tab_cycles_three_regions_while_the_graph_is_open() {
    let mut ctrl = controller();
    ctrl.toggle_graph(); // focus = Graph
    ctrl.toggle_focus();
    assert_eq!(ctrl.view_state().focus, Focus::Content, "graph → content");
    ctrl.toggle_focus();
    assert_eq!(ctrl.view_state().focus, Focus::Tree, "content → tree");
    ctrl.toggle_focus();
    assert_eq!(ctrl.view_state().focus, Focus::Graph, "tree → graph");
}

#[test]
fn y_copies_the_short_sha_and_shift_y_the_full_sha_when_graph_focused() {
    let clip = RecordingClipboard::default();
    let mut ctrl = controller_with(clip.clone());
    ctrl.toggle_graph(); // focus = Graph, cursor 0 = SHA_A
    ctrl.copy_commit_sha(false); // y
    ctrl.copy_commit_sha(true); // Y
    let copied = clip.0.borrow().clone();
    assert_eq!(copied, vec!["aaaaaaa".to_string(), SHA_A.to_string()]);
}

#[test]
fn all_branches_toggle_reloads_and_edge_cases_stay_inert_when_hidden() {
    let mut ctrl = controller();
    // Hidden: the toggle and both resizes are inert no-ops.
    assert!(inert(ctrl.toggle_all_branches()), "inert while hidden");
    assert!(inert(ctrl.shrink_graph()), "inert while hidden");
    assert!(inert(ctrl.grow_graph()), "inert while hidden");
    // Open: the toggle reloads (the stub returns the same page) and the title reflects the scope.
    ctrl.toggle_graph();
    assert_eq!(ctrl.view_state().graph.unwrap().title, "History");
    ctrl.toggle_all_branches();
    assert_eq!(ctrl.view_state().graph.unwrap().title, "History · all");
}

#[test]
fn graph_resize_clamps_between_bounds() {
    let mut ctrl = controller();
    ctrl.toggle_graph();
    for _ in 0..20 {
        ctrl.grow_graph();
    }
    assert_eq!(
        ctrl.view_state().graph_pct,
        RANGE.max,
        "grow clamps at the max"
    );
    for _ in 0..20 {
        ctrl.shrink_graph();
    }
    assert_eq!(
        ctrl.view_state().graph_pct,
        RANGE.min,
        "shrink clamps at the min"
    );
}

#[test]
fn one_step_moves_the_divider_by_ten_points_and_shrinking_undoes_it() {
    let mut ctrl = controller();
    ctrl.toggle_graph();
    let fx = ctrl.grow_graph();
    assert!(fx.redraw && !fx.quit);
    assert_eq!(ctrl.view_state().graph_pct, 50);
    ctrl.shrink_graph();
    assert_eq!(ctrl.view_state().graph_pct, 40);
}

#[test]
fn the_divider_moves_by_any_number_of_points() {
    let mut ctrl = controller();
    assert!(inert(ctrl.resize_graph(i16::MAX)), "inert while hidden");
    assert!(inert(ctrl.resize_graph(i16::MIN)), "inert while hidden");
    ctrl.toggle_graph();
    for delta in [-20, -7, 0, 1, 40] {
        assert!(ctrl.resize_graph(delta).redraw);
        assert_eq!(ctrl.view_state().graph_pct, (40 + delta) as u16);
        ctrl.resize_graph(-delta);
        assert_eq!(ctrl.view_state().graph_pct, 40);
    }
    ctrl.resize_graph(41);
    assert_eq!(ctrl.view_state().graph_pct, 80);
    ctrl.resize_graph(i16::MIN);
    assert_eq!(ctrl.view_state().graph_pct, 20);
}

#[test]
fn git_is_asked_only_when_a_page_is_needed() {
    let git = long(250);
    let mut ctrl = over(git.clone(), BrokenClipboard);
    ctrl.maybe_load_more();
    ctrl.toggle_all_branches();
    ctrl.graph_move(1);
    assert!(git.asked.borrow().is_empty(), "hidden");
    ctrl.toggle_graph();
    ctrl.maybe_load_more();
    ctrl.copy_commit_sha(true);
    ctrl.grow_graph();
    ctrl.toggle_focus();
    ctrl.graph_view();
    assert_eq!(git.asked.borrow().len(), 1, "shown");
    ctrl.toggle_graph();
    assert_eq!(git.asked.borrow().len(), 1, "hidden again");
}

#[test]
fn every_method_is_inert_while_hidden() {
    let clip = RecordingClipboard::default();
    let mut ctrl = controller_with(clip.clone());
    assert!(inert(ctrl.graph_move(1)));
    assert!(inert(ctrl.copy_commit_sha(true)));
    ctrl.graph_set_cursor(2);
    let view = ctrl.view_state();
    assert!(view.graph.is_none());
    assert_eq!(view.graph_pct, 40);
    assert_eq!(view.focus, Focus::Tree);
    assert_eq!(view.action_notice, None);
    assert!(clip.0.borrow().is_empty());
}

#[test]
fn nothing_opens_outside_a_repository() {
    let git = long(3);
    let mut ctrl = Controller::new(
        false,
        40,
        RANGE,
        Components {
            git: git.clone(),
            renderer: StubRenderer,
            clipboard: RecordingClipboard::default(),
        },
    );
    assert!(inert(ctrl.toggle_graph()));
    assert!(ctrl.graph_view().is_none());
    assert!(git.asked.borrow().is_empty());
}

#[test]
fn closing_returns_the_focus_to_the_tree_from_anywhere() {
    for tabs in 0..3 {
        let mut ctrl = controller();
        ctrl.toggle_graph();
        for _ in 0..tabs {
            ctrl.toggle_focus();
        }
        let fx = ctrl.toggle_graph();
        assert!(fx.redraw && !fx.quit);
        let view = ctrl.view_state();
        assert!(view.graph.is_none());
        assert_eq!(view.focus, Focus::Tree);
    }
}

#[test]
fn focus_skips_a_hidden_graph() {
    let mut ctrl = controller();
    ctrl.toggle_focus();
    assert_eq!(ctrl.view_state().focus, Focus::Content);
    ctrl.toggle_focus();
    assert_eq!(ctrl.view_state().focus, Focus::Tree);
}

#[test]
fn the_cursor_is_clamped_to_the_loaded_rows() {
    let mut ctrl = controller();
    ctrl.toggle_graph();
    ctrl.graph_move(1);
    assert_eq!(ctrl.graph_view().unwrap().cursor, 1);
    ctrl.graph_move(isize::MAX);
    assert_eq!(ctrl.graph_view().unwrap().cursor, 2);
    ctrl.graph_move(-1);
    assert_eq!(ctrl.graph_view().unwrap().cursor, 1);
    ctrl.graph_move(isize::MIN);
    assert_eq!(ctrl.graph_view().unwrap().cursor, 0);
    ctrl.graph_set_cursor(usize::MAX);
    assert_eq!(ctrl.graph_view().unwrap().cursor, 2);
    ctrl.graph_set_cursor(1);
    assert_eq!(ctrl.graph_view().unwrap().cursor, 1);
}

#[test]
fn moving_there_and_back_returns() {
    let mut ctrl = over(long(500), BrokenClipboard);
    ctrl.toggle_graph();
    ctrl.graph_set_cursor(100);
    ctrl.graph_move(295); // loads the next page
    assert_eq!(ctrl.graph_view().unwrap().lines.len(), 800);
    ctrl.graph_move(-295);
    assert_eq!(ctrl.graph_view().unwrap().cursor, 100);
}

#[test]
fn an_empty_history_has_nothing_to_select() {
    let mut ctrl = over(long(0), BrokenClipboard);
    assert!(ctrl.toggle_graph().redraw);
    assert!(inert(ctrl.graph_move(1)));
    ctrl.graph_set_cursor(4);
    assert!(inert(ctrl.copy_commit_sha(false)));
    let graph = ctrl.graph_view().unwrap();
    assert_eq!(graph.cursor, 0);
    assert!(graph.lines.is_empty());
}

#[test]
fn pages_are_loaded_near_the_end_and_join_up() {
    let git = long(450);
    let clip = RecordingClipboard::default();
    let mut ctrl = over(git.clone(), clip.clone());
    ctrl.toggle_graph();
    assert_eq!(ctrl.graph_view().unwrap().lines.len(), 400);
    // More rows than the margin lie ahead.
    ctrl.graph_set_cursor(389);
    assert_eq!(git.asked.borrow().len(), 1);
    // Within the margin of the loaded end.
    ctrl.graph_move(1);
    assert_eq!(*git.asked.borrow(), [(false, 0, 200), (false, 200, 200)]);
    assert_eq!(ctrl.graph_view().unwrap().cursor, 390);
    ctrl.graph_set_cursor(usize::MAX);
    assert_eq!(
        *git.asked.borrow(),
        [(false, 0, 200), (false, 200, 200), (false, 400, 200)]
    );
    assert_eq!(ctrl.graph_view().unwrap().lines.len(), 900);
    // The last page was short: the finished history is not asked again.
    ctrl.graph_set_cursor(usize::MAX);
    ctrl.graph_move(1);
    assert_eq!(git.asked.borrow().len(), 3);
    // No commit is missing and none is there twice.
    for i in 0..450 {
        ctrl.graph_set_cursor(2 * i);
        ctrl.copy_commit_sha(true);
    }
    let expected: Vec<String> = (0..450).map(|i| format!("{i:08x}")).collect();
    assert_eq!(*clip.0.borrow(), expected);
}

#[test]
fn the_next_page_is_named_only_when_it_is_needed() {
    let git = long(250);
    let mut ctrl = over(git.clone(), BrokenClipboard);
    assert_eq!(ctrl.next_page(), None, "hidden");
    ctrl.toggle_graph();
    assert_eq!(ctrl.next_page(), None, "enough rows lie ahead");
    ctrl.graph_set_cursor(399);
    assert_eq!(git.asked.borrow().len(), 2);
    ctrl.graph_set_cursor(499);
    assert_eq!(ctrl.next_page(), None, "the history is finished");
    assert_eq!(git.asked.borrow().len(), 2);
}

#[test]
fn setting_the_cursor_is_moving_it_by_the_difference() {
    for idx in [0, 7, 389, 390, 399, 400, 5000] {
        let (set_git, moved_git) = (long(450), long(450));
        let mut set = over(set_git.clone(), BrokenClipboard);
        let mut moved = over(moved_git.clone(), BrokenClipboard);
        set.toggle_graph();
        moved.toggle_graph();
        set.graph_set_cursor(100);
        moved.graph_set_cursor(100);
        set.graph_set_cursor(idx);
        moved.graph_move(idx as isize - 100);
        let (a, b) = (set.graph_view().unwrap(), moved.graph_view().unwrap());
        assert_eq!(a.cursor, b.cursor);
        assert_eq!(a.lines, b.lines);
        assert_eq!(*set_git.asked.borrow(), *moved_git.asked.borrow());
    }
}

#[test]
fn a_history_of_whole_pages_ends_with_an_empty_one() {
    let git = long(200);
    let mut ctrl = over(git.clone(), BrokenClipboard);
    ctrl.toggle_graph();
    ctrl.graph_set_cursor(399);
    assert_eq!(*git.asked.borrow(), [(false, 0, 200), (false, 200, 200)]);
    assert_eq!(ctrl.graph_view().unwrap().lines.len(), 400);
    ctrl.graph_move(0);
    assert_eq!(git.asked.borrow().len(), 2);
}

#[test]
fn switching_the_scope_starts_over_at_the_top() {
    let git = long(500);
    let mut ctrl = over(git.clone(), BrokenClipboard);
    ctrl.toggle_graph();
    ctrl.graph_set_cursor(50);
    ctrl.toggle_focus(); // content
    let fx = ctrl.toggle_all_branches();
    assert!(fx.redraw && !fx.quit);
    assert_eq!(*git.asked.borrow(), [(false, 0, 200), (true, 0, 200)]);
    assert_eq!(ctrl.graph_view().unwrap().cursor, 0);
    assert_eq!(ctrl.view_state().focus, Focus::Content);
    // Further pages are of the new scope.
    ctrl.graph_set_cursor(399);
    assert_eq!(git.asked.borrow()[2], (true, 200, 200));
    ctrl.toggle_all_branches();
    assert_eq!(git.asked.borrow()[3], (false, 0, 200));
    assert_eq!(ctrl.graph_view().unwrap().title, "History");
}

#[test]
fn copies_are_noticed() {
    let mut ctrl = controller();
    ctrl.toggle_graph();
    assert!(ctrl.copy_commit_sha(false).redraw);
    assert_eq!(
        ctrl.view_state().action_notice.as_deref(),
        Some("Copied aaaaaaa")
    );

    let mut ctrl = over(StubGit, BrokenClipboard);
    ctrl.toggle_graph();
    assert!(ctrl.copy_commit_sha(true).redraw);
    assert_eq!(
        ctrl.view_state().action_notice.as_deref(),
        Some("Could not copy commit id: no terminal")
    );
}

#[test]
fn edge_rows_have_nothing_to_copy() {
    let clip = RecordingClipboard::default();
    let mut ctrl = controller_with(clip.clone());
    ctrl.toggle_graph();
    ctrl.graph_set_cursor(1);
    assert!(inert(ctrl.copy_commit_sha(true)));
    assert!(clip.0.borrow().is_empty());
    assert_eq!(ctrl.view_state().action_notice, None);
    assert_eq!(ctrl.copy_text(false), None);
}

#[test]
fn an_id_shorter_than_the_short_form_is_copied_whole() {
    struct ShortGit;
    impl GitService for ShortGit {
        fn log_graph(&mut self, _all: bool, _skip: usize, _limit: usize) -> Vec<CommitRow> {
            vec![CommitRow {
                sha: Some("beef".into()),
                line: "* beef".into(),
            }]
        }
    }
    let mut ctrl = over(ShortGit, BrokenClipboard);
    ctrl.toggle_graph();
    assert_eq!(ctrl.copy_text(false).as_deref(), Some("beef"));
    assert_eq!(ctrl.copy_text(true).as_deref(), Some("beef"));
}

#[test]
fn the_view_shows_the_ingested_lines_and_the_scroll() {
    let mut ctrl = controller();
    ctrl.toggle_graph();
    ctrl.set_graph_scroll(2);
    let graph = ctrl.graph_view().unwrap();
    assert_eq!(
        graph.lines,
        vec![
            Line::raw("* aaaaaaa first"),
            Line::raw("|"),
            Line::raw("* bbbbbbb second"),
        ]
    );
    assert_eq!(graph.scroll, 2);
    assert_eq!(graph.cursor, 0);
}

#[test]
fn a_row_is_shown_on_one_line() {
    assert_eq!(
        first_line(vec![Line::raw("one"), Line::raw("two")]),
        Line::raw("one")
    );
    assert_eq!(first_line(Vec::new()), Line::default());
    assert!(first_line(Vec::new()).spans.is_empty());
    // A row whose rendering is empty stays empty.
    let mut ctrl = Controller::new(
        true,
        40,
        RANGE,
        Components {
            git: StubGit,
            renderer: NoRenderer,
            clipboard: BrokenClipboard,
        },
    );
    ctrl.toggle_graph();
    assert_eq!(ctrl.graph_view().unwrap().lines, vec![Line::default(); 3]);
}
