//! What the operations of the graph section do, told of their calls.
//!
//! `call_ensures(f, args, out)` says that a call of `f` with `args` may return `out`. So each law
//! here holds of every call, whatever the words in which the contract of the function is put. Of a
//! call that changes the controller, `old(ctrl)` is the controller before and `final(ctrl)` the
//! one after.
use crate::controller::{
    Clipboard, Components, Controller, ControllerModel, Effects, GitService, GraphModel, GraphState,
    LineRenderer, GRAPH_PCT_STEP, LOAD_MORE_MARGIN, SHORT_ID,
};
use crate::history::{CommitRow, PAGE};
use crate::presenter::{first_line, Focus, GraphView, PctRange, ViewState};
use ratatui::text::Line;
use vstd::prelude::*;

verus! {

/// The ids of the commits on some rows, in order.
pub open spec fn ids_on(rows: Seq<CommitRow>) -> Seq<Seq<char>>
    decreases rows.len(),
{
    if rows.len() == 0 {
        Seq::empty()
    } else {
        match rows.last().sha {
            Some(id) => ids_on(rows.drop_last()).push(id@),
            None => ids_on(rows.drop_last()),
        }
    }
}

/// `line` is the first line of what the renderer makes of the text of `row`, or the default line
/// if it makes none of it.
pub open spec fn is_shown_as<R: LineRenderer>(
    renderer: R,
    row: CommitRow,
    line: Line<'static>,
) -> bool {
    exists|shown: &str, text: Vec<Line<'static>>|
        {
            &&& #[trigger] call_ensures(R::to_text, (&renderer, shown), text)
            &&& shown@ == row.line@
            &&& text@.len() > 0 ==> line == text@[0]
            &&& text@.len() == 0 ==> call_ensures(<Line<'static> as Default>::default, (), line)
        }
}

/// `after` has the rows of `before` and then those of `page`, each with its line; selection and
/// scope are those of `before`; the commits of the page are counted, and too few of them finish
/// the history.
pub open spec fn is_page_added<R: LineRenderer>(
    before: GraphModel,
    page: Seq<CommitRow>,
    renderer: R,
    after: GraphModel,
) -> bool {
    let n = before.lines.len() as int;
    &&& after.rows == before.rows + page
    &&& after.lines.len() == n + page.len()
    &&& forall|i: int| 0 <= i < n ==> #[trigger] after.lines[i] == before.lines[i]
    &&& forall|i: int|
        0 <= i < page.len() ==> is_shown_as(renderer, #[trigger] page[i], after.lines[n + i])
    &&& after.cursor == before.cursor
    &&& after.all == before.all
    &&& after.commits == before.commits + ids_on(page).len()
    &&& after.exhausted <==> before.exhausted || ids_on(page).len() < PAGE
}

/// Nothing is loaded.
pub open spec fn is_unloaded(graph: GraphModel, all: bool) -> bool {
    &&& graph.rows.len() == 0
    &&& graph.lines.len() == 0
    &&& graph.cursor == 0
    &&& graph.all == all
    &&& graph.commits == 0
    &&& !graph.exhausted
}

/// All but the graph is the same.
pub open spec fn same_surroundings(a: ControllerModel, b: ControllerModel) -> bool {
    &&& a.is_git_repo == b.is_git_repo
    &&& a.focus == b.focus
    &&& a.graph_pct == b.graph_pct
    &&& a.pct_range == b.pct_range
    &&& a.graph_scroll == b.graph_scroll
    &&& a.action_notice == b.action_notice
}

/// The graph is loaded row by row with its lines and counted, the selection is on a loaded row, no
/// key goes to a hidden graph, and the divider is in a range that leaves room on both sides.
pub open spec fn is_sound(state: ControllerModel) -> bool {
    &&& state.graph matches Some(graph) ==> {
        &&& graph.lines.len() == graph.rows.len()
        &&& graph.rows.len() > 0 ==> 0 <= graph.cursor < graph.rows.len()
        &&& graph.rows.len() == 0 ==> graph.cursor == 0
        &&& graph.commits == ids_on(graph.rows).len()
        &&& graph.commits < PAGE ==> graph.exhausted
    }
    &&& state.graph is None ==> state.focus != Focus::Graph
    &&& 0 < state.pct_range.min
    &&& state.pct_range.min <= state.graph_pct
    &&& state.graph_pct <= state.pct_range.max
    &&& state.pct_range.max < 100
}

/// The id of the commit on the selected row.
pub open spec fn id_under_cursor(state: ControllerModel) -> Option<Seq<char>> {
    match state.graph {
        Some(graph) if 0 <= graph.cursor < graph.rows.len() => match graph.rows[graph.cursor].sha {
            Some(id) => Some(id@),
            None => None,
        },
        _ => None,
    }
}

/// `text` is the id, or, if it is not wanted in full, its start of at most seven characters.
pub open spec fn is_form_of(text: Seq<char>, id: Seq<char>, full: bool) -> bool {
    &&& full ==> text == id
    &&& !full ==> {
        &&& text.is_prefix_of(id)
        &&& id.len() <= SHORT_ID ==> text.len() == id.len()
        &&& id.len() > SHORT_ID ==> text.len() == SHORT_ID
    }
}

/// Of the loaded rows, none is closer to `target` than `row`.
pub open spec fn is_closest_row(rows: Seq<CommitRow>, target: int, row: int) -> bool {
    &&& 0 <= row < rows.len()
    &&& target < 0 ==> row == 0
    &&& target >= rows.len() ==> row == rows.len() - 1
    &&& 0 <= target < rows.len() ==> row == target
}

/// `page` has the commits of `history` that follow the first `skip` ones, `limit` of them or as
/// many as there are.
pub open spec fn is_page_at(
    history: Seq<Seq<char>>,
    skip: int,
    limit: int,
    page: Seq<CommitRow>,
) -> bool {
    &&& skip >= history.len() ==> ids_on(page).len() == 0
    &&& skip < history.len() < skip + limit ==> ids_on(page) == history.skip(skip)
    &&& skip + limit <= history.len() ==> ids_on(page) == history.subrange(skip, skip + limit)
}

/// The loaded commits are the first ones of `history`, and a finished history is loaded whole.
pub open spec fn shows_first_of(graph: GraphModel, history: Seq<Seq<char>>) -> bool {
    &&& graph.commits <= history.len()
    &&& ids_on(graph.rows) == history.take(graph.commits as int)
    &&& graph.exhausted ==> ids_on(graph.rows) == history
}

proof fn ids_are_counted(rows: Seq<CommitRow>)
    ensures
        ids_on(rows).len() == crate::controller::commit_count(rows),
    decreases rows.len(),
{
    reveal(Seq::filter);
    if rows.len() > 0 {
        ids_are_counted(rows.drop_last());
    }
}

proof fn ids_join(a: Seq<CommitRow>, b: Seq<CommitRow>)
    ensures
        ids_on(a + b) == ids_on(a) + ids_on(b),
    decreases b.len(),
{
    if b.len() == 0 {
        assert(a + b == a);
    } else {
        assert((a + b).drop_last() == a + b.drop_last());
        assert((a + b).last() == b.last());
        ids_join(a, b.drop_last());
    }
}

proof fn growing_adds_a_page<R: LineRenderer>(
    before: GraphModel,
    page: Seq<CommitRow>,
    renderer: R,
    after: GraphModel,
)
    requires
        before.grows_to(page, renderer, after),
    ensures
        is_page_added(before, page, renderer, after),
{
    let n = before.lines.len() as int;
    let lines = after.lines.skip(n);
    ids_are_counted(page);
    assert forall|i: int| 0 <= i < page.len() implies is_shown_as(
        renderer,
        #[trigger] page[i],
        after.lines[n + i],
    ) by {
        assert(after.lines[n + i] == lines[i]);
        assert(crate::controller::ingested(renderer, page[i], lines[i]));
        let (shown, text) = choose|shown: &str, text: Vec<Line<'static>>|
            {
                &&& shown@ == page[i].line@
                &&& #[trigger] call_ensures(R::to_text, (&renderer, shown), text)
                &&& crate::presenter::is_first_line(text@, lines[i])
            };
        assert(call_ensures(R::to_text, (&renderer, shown), text));
    }
    assert forall|i: int| 0 <= i < n implies #[trigger] after.lines[i] == before.lines[i] by {}
}

/// The invariant that the operations ask for and keep says that the state is sound.
pub proof fn well_formed_is_sound(state: ControllerModel)
    ensures
        state.wf() <==> is_sound(state),
{
    if let Some(graph) = state.graph {
        ids_are_counted(graph.rows);
    }
}

/// A text stands on one row as its first line, and as the default line if it has none.
pub proof fn first_line_stands_for_the_text(text: Vec<Line<'static>>, line: Line<'static>)
    requires
        call_ensures(first_line, (text,), line),
    ensures
        text@.len() > 0 ==> line == text@[0],
        text@.len() == 0 ==> call_ensures(<Line<'static> as Default>::default, (), line),
        text@.len() == 0 ==> crate::presenter::line_spans(line).len() == 0,
{
}

/// The two effects of an operation of the section: nothing, and a redraw.
pub proof fn effects_are_what_they_say(nothing: Effects, drawn: Effects)
    requires
        call_ensures(Effects::noop, (), nothing),
        call_ensures(Effects::redraw, (), drawn),
    ensures
        !nothing.redraw && !nothing.quit,
        drawn.redraw && !drawn.quit,
{
}

/// A page is appended to a loaded state, and the first page to none.
pub proof fn pages_are_appended<R: LineRenderer>(
    state: &mut GraphState,
    page: Vec<CommitRow>,
    renderer: &R,
    all: bool,
    first: GraphState,
)
    requires
        call_ensures(GraphState::append_page::<R>, (state, page, renderer), ()),
        call_ensures(GraphState::from_page::<R>, (page, all, renderer), first),
    ensures
        is_page_added(old(state)@, page@, *renderer, final(state)@),
        first@.rows == page@,
        first@.cursor == 0,
        first@.all == all,
        first@.commits == ids_on(page@).len(),
        first@.exhausted <==> ids_on(page@).len() < PAGE,
        first@.lines.len() == page@.len(),
        forall|i: int|
            0 <= i < page@.len() ==> is_shown_as(*renderer, page@[i], #[trigger] first@.lines[i]),
{
    growing_adds_a_page(old(state)@, page@, *renderer, final(state)@);
    let none = GraphModel::empty(all);
    growing_adds_a_page(none, page@, *renderer, first@);
    assert(first@.rows == page@);
    assert forall|i: int| 0 <= i < page@.len() implies is_shown_as(
        *renderer,
        page@[i],
        #[trigger] first@.lines[i],
    ) by {
        assert(is_shown_as(*renderer, page@[i], first@.lines[0 + i]));
    }
}

/// At launch the section is hidden, the tree has the focus, and nothing has been noticed.
pub proof fn launch_is_hidden<G: GitService, R: LineRenderer, C: Clipboard>(
    is_git_repo: bool,
    graph_pct: u16,
    pct_range: PctRange,
    components: Components<G, R, C>,
    ctrl: Controller<G, R, C>,
)
    requires
        call_ensures(
            Controller::<G, R, C>::new,
            (is_git_repo, graph_pct, pct_range, components),
            ctrl,
        ),
    ensures
        ctrl@.graph is None,
        ctrl@.focus == Focus::Tree,
        ctrl@.is_git_repo == is_git_repo,
        ctrl@.graph_pct == graph_pct,
        ctrl@.pct_range == pct_range,
        ctrl@.graph_scroll == 0,
        ctrl@.action_notice is None,
        ctrl.git() == components.git,
        ctrl.renderer() == components.renderer,
        ctrl.clipboard() == components.clipboard,
{
}

/// Hiding the section drops the graph and gives the tree the focus. All else stays, and git is not
/// asked.
pub proof fn hiding_gives_the_tree_the_focus<G: GitService, R: LineRenderer, C: Clipboard>(
    ctrl: &mut Controller<G, R, C>,
    fx: Effects,
)
    requires
        call_ensures(Controller::<G, R, C>::toggle_graph, (ctrl,), fx),
        ctrl@.graph is Some,
    ensures
        final(ctrl)@.graph is None,
        final(ctrl)@.focus == Focus::Tree,
        final(ctrl)@.is_git_repo == old(ctrl)@.is_git_repo,
        final(ctrl)@.graph_pct == old(ctrl)@.graph_pct,
        final(ctrl)@.pct_range == old(ctrl)@.pct_range,
        final(ctrl)@.graph_scroll == old(ctrl)@.graph_scroll,
        final(ctrl)@.action_notice == old(ctrl)@.action_notice,
        final(ctrl).git() == old(ctrl).git(),
        final(ctrl).renderer() == old(ctrl).renderer(),
        final(ctrl).clipboard() == old(ctrl).clipboard(),
        fx.redraw && !fx.quit,
        is_sound(final(ctrl)@),
{
    well_formed_is_sound(final(ctrl)@);
}

/// Outside a repository the section cannot be shown: nothing changes, and git is not asked.
pub proof fn nothing_is_shown_outside_a_repository<G: GitService, R: LineRenderer, C: Clipboard>(
    ctrl: &mut Controller<G, R, C>,
    fx: Effects,
)
    requires
        call_ensures(Controller::<G, R, C>::toggle_graph, (ctrl,), fx),
        ctrl@.graph is None,
        !ctrl@.is_git_repo,
    ensures
        final(ctrl)@ == old(ctrl)@,
        final(ctrl).git() == old(ctrl).git(),
        final(ctrl).renderer() == old(ctrl).renderer(),
        final(ctrl).clipboard() == old(ctrl).clipboard(),
        !fx.redraw && !fx.quit,
{
}

/// Showing the section asks git once for the first page of the current branch, loads what it
/// answers, selects the first row and takes the focus. All else stays.
pub proof fn showing_loads_the_first_page<G: GitService, R: LineRenderer, C: Clipboard>(
    ctrl: &mut Controller<G, R, C>,
    fx: Effects,
)
    requires
        call_ensures(Controller::<G, R, C>::toggle_graph, (ctrl,), fx),
        ctrl@.graph is None,
        ctrl@.is_git_repo,
    ensures
        exists|service: &mut G, page: Vec<CommitRow>, none: GraphModel|
            {
                &&& #[trigger] call_ensures(
                    G::log_graph,
                    (service, false, 0usize, PAGE),
                    page,
                )
                &&& *service == old(ctrl).git()
                &&& *final(service) == final(ctrl).git()
                &&& is_unloaded(none, false)
                &&& final(ctrl)@.graph is Some
                &&& #[trigger] is_page_added(
                    none,
                    page@,
                    old(ctrl).renderer(),
                    final(ctrl)@.graph->0,
                )
            },
        final(ctrl)@.focus == Focus::Graph,
        final(ctrl)@.is_git_repo == old(ctrl)@.is_git_repo,
        final(ctrl)@.graph_pct == old(ctrl)@.graph_pct,
        final(ctrl)@.pct_range == old(ctrl)@.pct_range,
        final(ctrl)@.graph_scroll == old(ctrl)@.graph_scroll,
        final(ctrl)@.action_notice == old(ctrl)@.action_notice,
        final(ctrl).renderer() == old(ctrl).renderer(),
        final(ctrl).clipboard() == old(ctrl).clipboard(),
        fx.redraw && !fx.quit,
        is_sound(final(ctrl)@),
{
    well_formed_is_sound(final(ctrl)@);
    let graph = final(ctrl)@.graph->0;
    let renderer = old(ctrl).renderer();
    let service = choose|service: &mut G|
        {
            &&& *service == old(ctrl).git()
            &&& *final(service) == final(ctrl).git()
            &&& #[trigger] graph.is_fresh(service, renderer, false)
        };
    let page = choose|page: Vec<CommitRow>| #[trigger]
        crate::controller::git_answers(service, false, 0, PAGE as nat, page) && GraphModel::empty(
            false,
        ).grows_to(page@, renderer, graph);
    growing_adds_a_page(GraphModel::empty(false), page@, renderer, graph);
    assert(call_ensures(G::log_graph, (service, false, 0usize, PAGE), page));
}

/// Switching the scope asks git once for the first page of the other scope and shows that page
/// alone, with the first row selected. All else stays, the focus too.
pub proof fn switching_the_scope_loads_the_other<G: GitService, R: LineRenderer, C: Clipboard>(
    ctrl: &mut Controller<G, R, C>,
    fx: Effects,
)
    requires
        call_ensures(Controller::<G, R, C>::toggle_all_branches, (ctrl,), fx),
        ctrl@.graph is Some,
    ensures
        exists|service: &mut G, page: Vec<CommitRow>, none: GraphModel, all: bool|
            {
                &&& #[trigger] call_ensures(G::log_graph, (service, all, 0usize, PAGE), page)
                &&& all != old(ctrl)@.graph->0.all
                &&& *service == old(ctrl).git()
                &&& *final(service) == final(ctrl).git()
                &&& is_unloaded(none, all)
                &&& final(ctrl)@.graph is Some
                &&& #[trigger] is_page_added(
                    none,
                    page@,
                    old(ctrl).renderer(),
                    final(ctrl)@.graph->0,
                )
            },
        same_surroundings(final(ctrl)@, old(ctrl)@),
        final(ctrl).renderer() == old(ctrl).renderer(),
        final(ctrl).clipboard() == old(ctrl).clipboard(),
        fx.redraw && !fx.quit,
        is_sound(final(ctrl)@),
{
    well_formed_is_sound(final(ctrl)@);
    let graph = final(ctrl)@.graph->0;
    let all = graph.all;
    let renderer = old(ctrl).renderer();
    let service = choose|service: &mut G|
        {
            &&& *service == old(ctrl).git()
            &&& *final(service) == final(ctrl).git()
            &&& #[trigger] graph.is_fresh(service, renderer, graph.all)
        };
    let page = choose|page: Vec<CommitRow>| #[trigger]
        crate::controller::git_answers(service, all, 0, PAGE as nat, page) && GraphModel::empty(
            all,
        ).grows_to(page@, renderer, graph);
    growing_adds_a_page(GraphModel::empty(all), page@, renderer, graph);
    assert(call_ensures(G::log_graph, (service, all, 0usize, PAGE), page));
}

/// While the section is hidden, switching the scope, resizing, moving, setting the cursor and
/// loading more change nothing and ask nothing.
pub proof fn hidden_section_does_nothing<G: GitService, R: LineRenderer, C: Clipboard>(
    switched: &mut Controller<G, R, C>,
    switched_fx: Effects,
    resized: &mut Controller<G, R, C>,
    points: i16,
    resized_fx: Effects,
    moved: &mut Controller<G, R, C>,
    delta: isize,
    moved_fx: Effects,
    set: &mut Controller<G, R, C>,
    idx: usize,
    loaded: &mut Controller<G, R, C>,
)
    requires
        call_ensures(Controller::<G, R, C>::toggle_all_branches, (switched,), switched_fx),
        switched@.graph is None,
        call_ensures(Controller::<G, R, C>::resize_graph, (resized, points), resized_fx),
        resized@.graph is None,
        call_ensures(Controller::<G, R, C>::graph_move, (moved, delta), moved_fx),
        moved@.graph is None,
        call_ensures(Controller::<G, R, C>::graph_set_cursor, (set, idx), ()),
        set@.graph is None,
        call_ensures(Controller::<G, R, C>::maybe_load_more, (loaded,), ()),
        loaded@.graph is None,
    ensures
        final(switched)@ == old(switched)@,
        final(switched).git() == old(switched).git(),
        final(switched).clipboard() == old(switched).clipboard(),
        !switched_fx.redraw && !switched_fx.quit,
        final(resized)@ == old(resized)@,
        final(resized).git() == old(resized).git(),
        final(resized).clipboard() == old(resized).clipboard(),
        !resized_fx.redraw && !resized_fx.quit,
        final(moved)@ == old(moved)@,
        final(moved).git() == old(moved).git(),
        final(moved).clipboard() == old(moved).clipboard(),
        !moved_fx.redraw && !moved_fx.quit,
        final(set)@ == old(set)@,
        final(set).git() == old(set).git(),
        final(set).clipboard() == old(set).clipboard(),
        final(loaded)@ == old(loaded)@,
        final(loaded).git() == old(loaded).git(),
        final(loaded).clipboard() == old(loaded).clipboard(),
{
}

/// Resizing moves the divider by the points, or as far as the range lets it: to the end of the range
/// that it was to go past. All else stays.
pub proof fn divider_goes_as_far_as_it_may<G: GitService, R: LineRenderer, C: Clipboard>(
    ctrl: &mut Controller<G, R, C>,
    points: i16,
    fx: Effects,
)
    requires
        call_ensures(Controller::<G, R, C>::resize_graph, (ctrl, points), fx),
        ctrl@.graph is Some,
    ensures
        old(ctrl)@.pct_range.min <= final(ctrl)@.graph_pct <= old(ctrl)@.pct_range.max,
        ({
            let target = old(ctrl)@.graph_pct + points;
            let pct = final(ctrl)@.graph_pct;
            &&& target < old(ctrl)@.pct_range.min ==> pct == old(ctrl)@.pct_range.min
            &&& target > old(ctrl)@.pct_range.max ==> pct == old(ctrl)@.pct_range.max
            &&& old(ctrl)@.pct_range.min <= target <= old(ctrl)@.pct_range.max ==> pct == target
        }),
        final(ctrl)@.graph == old(ctrl)@.graph,
        final(ctrl)@.focus == old(ctrl)@.focus,
        final(ctrl)@.is_git_repo == old(ctrl)@.is_git_repo,
        final(ctrl)@.pct_range == old(ctrl)@.pct_range,
        final(ctrl)@.graph_scroll == old(ctrl)@.graph_scroll,
        final(ctrl)@.action_notice == old(ctrl)@.action_notice,
        final(ctrl).git() == old(ctrl).git(),
        final(ctrl).renderer() == old(ctrl).renderer(),
        final(ctrl).clipboard() == old(ctrl).clipboard(),
        fx.redraw && !fx.quit,
        is_sound(final(ctrl)@),
{
    well_formed_is_sound(final(ctrl)@);
}

/// Growing is resizing by one step, and shrinking by one step the other way.
pub proof fn growing_and_shrinking_are_steps<G: GitService, R: LineRenderer, C: Clipboard>(
    grown: &mut Controller<G, R, C>,
    grown_fx: Effects,
    up: &mut Controller<G, R, C>,
    up_fx: Effects,
    shrunk: &mut Controller<G, R, C>,
    shrunk_fx: Effects,
    down: &mut Controller<G, R, C>,
    down_fx: Effects,
    points: i16,
)
    requires
        points == GRAPH_PCT_STEP,
        *grown == *up,
        *shrunk == *down,
        call_ensures(Controller::<G, R, C>::grow_graph, (grown,), grown_fx),
        call_ensures(Controller::<G, R, C>::resize_graph, (up, points), up_fx),
        call_ensures(Controller::<G, R, C>::shrink_graph, (shrunk,), shrunk_fx),
        call_ensures(Controller::<G, R, C>::resize_graph, (down, (-points) as i16), down_fx),
    ensures
        final(grown)@ == final(up)@,
        final(grown).git() == final(up).git(),
        final(grown).renderer() == final(up).renderer(),
        final(grown).clipboard() == final(up).clipboard(),
        grown_fx == up_fx,
        final(shrunk)@ == final(down)@,
        final(shrunk).git() == final(down).git(),
        final(shrunk).renderer() == final(down).renderer(),
        final(shrunk).clipboard() == final(down).clipboard(),
        shrunk_fx == down_fx,
{
}

/// Moving the cursor by rows puts it that many rows on, or on the first or the last of the loaded
/// rows if there are not so many. If it then is near the loaded end and the history is not
/// finished, git is asked once for the page after the loaded commits, in the scope that is shown,
/// and that page is added; else git is not asked and nothing is added. All else stays.
pub proof fn moving_goes_to_the_closest_row<G: GitService, R: LineRenderer, C: Clipboard>(
    ctrl: &mut Controller<G, R, C>,
    delta: isize,
    fx: Effects,
)
    requires
        is_sound(ctrl@),
        ctrl@.graph is Some,
        ctrl@.graph->0.rows.len() > 0,
        call_ensures(Controller::<G, R, C>::graph_move, (ctrl, delta), fx),
    ensures
        final(ctrl)@.graph is Some,
        is_closest_row(
            old(ctrl)@.graph->0.rows,
            old(ctrl)@.graph->0.cursor + delta,
            final(ctrl)@.graph->0.cursor,
        ),
        ({
            let before = old(ctrl)@.graph->0;
            let put = GraphModel { cursor: final(ctrl)@.graph->0.cursor, ..before };
            if !before.exhausted && put.cursor + LOAD_MORE_MARGIN >= before.rows.len() {
                exists|service: &mut G, page: Vec<CommitRow>, skip: usize|
                    {
                        &&& #[trigger] call_ensures(
                            G::log_graph,
                            (service, before.all, skip, PAGE),
                            page,
                        )
                        &&& skip == before.commits
                        &&& *service == old(ctrl).git()
                        &&& *final(service) == final(ctrl).git()
                        &&& is_page_added(
                            put,
                            page@,
                            old(ctrl).renderer(),
                            final(ctrl)@.graph->0,
                        )
                    }
            } else {
                final(ctrl)@.graph->0 == put && final(ctrl).git() == old(ctrl).git()
            }
        }),
        same_surroundings(final(ctrl)@, old(ctrl)@),
        final(ctrl).renderer() == old(ctrl).renderer(),
        final(ctrl).clipboard() == old(ctrl).clipboard(),
        fx.redraw && !fx.quit,
        is_sound(final(ctrl)@),
{
    well_formed_is_sound(final(ctrl)@);
    crate::controller::shown_commits_fit(*old(ctrl));
    let state = old(ctrl)@.with_cursor_at(old(ctrl)@.graph->0.cursor + delta);
    let put = state.graph->0;
    let renderer = old(ctrl).renderer();
    if state.needs_more() {
        let service = choose|service: &mut G|
            {
                &&& *service == old(ctrl).git()
                &&& *final(service) == final(ctrl).git()
                &&& #[trigger] state.is_fed(service, renderer, final(ctrl)@)
            };
        let grown = final(ctrl)@.graph->0;
        let page = choose|page: Vec<CommitRow>| #[trigger]
            crate::controller::git_answers(service, put.all, put.commits, PAGE as nat, page)
                && put.grows_to(page@, renderer, grown);
        growing_adds_a_page(put, page@, renderer, grown);
        assert(call_ensures(
            G::log_graph,
            (service, put.all, put.commits as usize, PAGE),
            page,
        ));
    }
}

/// Setting the cursor puts it on the row, or on the last of the loaded rows if there are fewer. What
/// follows is what follows a move.
pub proof fn setting_goes_to_the_closest_row<G: GitService, R: LineRenderer, C: Clipboard>(
    ctrl: &mut Controller<G, R, C>,
    idx: usize,
)
    requires
        is_sound(ctrl@),
        ctrl@.graph is Some,
        ctrl@.graph->0.rows.len() > 0,
        call_ensures(Controller::<G, R, C>::graph_set_cursor, (ctrl, idx), ()),
    ensures
        final(ctrl)@.graph is Some,
        is_closest_row(
            old(ctrl)@.graph->0.rows,
            idx as int,
            final(ctrl)@.graph->0.cursor,
        ),
        ({
            let before = old(ctrl)@.graph->0;
            let put = GraphModel { cursor: final(ctrl)@.graph->0.cursor, ..before };
            if !before.exhausted && put.cursor + LOAD_MORE_MARGIN >= before.rows.len() {
                exists|service: &mut G, page: Vec<CommitRow>, skip: usize|
                    {
                        &&& #[trigger] call_ensures(
                            G::log_graph,
                            (service, before.all, skip, PAGE),
                            page,
                        )
                        &&& skip == before.commits
                        &&& *service == old(ctrl).git()
                        &&& *final(service) == final(ctrl).git()
                        &&& is_page_added(
                            put,
                            page@,
                            old(ctrl).renderer(),
                            final(ctrl)@.graph->0,
                        )
                    }
            } else {
                final(ctrl)@.graph->0 == put && final(ctrl).git() == old(ctrl).git()
            }
        }),
        same_surroundings(final(ctrl)@, old(ctrl)@),
        final(ctrl).renderer() == old(ctrl).renderer(),
        final(ctrl).clipboard() == old(ctrl).clipboard(),
        is_sound(final(ctrl)@),
{
    well_formed_is_sound(final(ctrl)@);
    crate::controller::shown_commits_fit(*old(ctrl));
    let state = old(ctrl)@.with_cursor_at(idx as int);
    let put = state.graph->0;
    let renderer = old(ctrl).renderer();
    if state.needs_more() {
        let service = choose|service: &mut G|
            {
                &&& *service == old(ctrl).git()
                &&& *final(service) == final(ctrl).git()
                &&& #[trigger] state.is_fed(service, renderer, final(ctrl)@)
            };
        let grown = final(ctrl)@.graph->0;
        let page = choose|page: Vec<CommitRow>| #[trigger]
            crate::controller::git_answers(service, put.all, put.commits, PAGE as nat, page)
                && put.grows_to(page@, renderer, grown);
        growing_adds_a_page(put, page@, renderer, grown);
        assert(call_ensures(
            G::log_graph,
            (service, put.all, put.commits as usize, PAGE),
            page,
        ));
    }
}

/// Loading more leaves the cursor where it is. If it is near the loaded end and the history is not
/// finished, git is asked once for the page after the loaded commits, in the scope that is shown,
/// and that page is added; else git is not asked and nothing is added. All else stays.
pub proof fn more_is_loaded_after_the_loaded_commits<G: GitService, R: LineRenderer, C: Clipboard>(
    ctrl: &mut Controller<G, R, C>,
)
    requires
        is_sound(ctrl@),
        ctrl@.graph is Some,
        call_ensures(Controller::<G, R, C>::maybe_load_more, (ctrl,), ()),
    ensures
        final(ctrl)@.graph is Some,
        final(ctrl)@.graph->0.cursor == old(ctrl)@.graph->0.cursor,
        ({
            let before = old(ctrl)@.graph->0;
            let put = GraphModel { cursor: final(ctrl)@.graph->0.cursor, ..before };
            if !before.exhausted && put.cursor + LOAD_MORE_MARGIN >= before.rows.len() {
                exists|service: &mut G, page: Vec<CommitRow>, skip: usize|
                    {
                        &&& #[trigger] call_ensures(
                            G::log_graph,
                            (service, before.all, skip, PAGE),
                            page,
                        )
                        &&& skip == before.commits
                        &&& *service == old(ctrl).git()
                        &&& *final(service) == final(ctrl).git()
                        &&& is_page_added(
                            put,
                            page@,
                            old(ctrl).renderer(),
                            final(ctrl)@.graph->0,
                        )
                    }
            } else {
                final(ctrl)@.graph->0 == put && final(ctrl).git() == old(ctrl).git()
            }
        }),
        same_surroundings(final(ctrl)@, old(ctrl)@),
        final(ctrl).renderer() == old(ctrl).renderer(),
        final(ctrl).clipboard() == old(ctrl).clipboard(),
        is_sound(final(ctrl)@),
{
    well_formed_is_sound(final(ctrl)@);
    crate::controller::shown_commits_fit(*old(ctrl));
    let state = old(ctrl)@;
    let put = state.graph->0;
    let renderer = old(ctrl).renderer();
    if state.needs_more() {
        let service = choose|service: &mut G|
            {
                &&& *service == old(ctrl).git()
                &&& *final(service) == final(ctrl).git()
                &&& #[trigger] state.is_fed(service, renderer, final(ctrl)@)
            };
        let grown = final(ctrl)@.graph->0;
        let page = choose|page: Vec<CommitRow>| #[trigger]
            crate::controller::git_answers(service, put.all, put.commits, PAGE as nat, page)
                && put.grows_to(page@, renderer, grown);
        growing_adds_a_page(put, page@, renderer, grown);
        assert(call_ensures(
            G::log_graph,
            (service, put.all, put.commits as usize, PAGE),
            page,
        ));
    }
}

/// In an empty graph there is no row to go to: nothing changes, and git is not asked.
pub proof fn empty_graph_has_no_row_to_go_to<G: GitService, R: LineRenderer, C: Clipboard>(
    moved: &mut Controller<G, R, C>,
    delta: isize,
    fx: Effects,
    set: &mut Controller<G, R, C>,
    idx: usize,
)
    requires
        is_sound(moved@),
        moved@.graph is Some,
        moved@.graph->0.rows.len() == 0,
        call_ensures(Controller::<G, R, C>::graph_move, (moved, delta), fx),
        is_sound(set@),
        set@.graph is Some,
        set@.graph->0.rows.len() == 0,
        call_ensures(Controller::<G, R, C>::graph_set_cursor, (set, idx), ()),
    ensures
        final(moved)@ == old(moved)@,
        final(moved).git() == old(moved).git(),
        final(moved).clipboard() == old(moved).clipboard(),
        !fx.redraw && !fx.quit,
        final(set)@ == old(set)@,
        final(set).git() == old(set).git(),
        final(set).clipboard() == old(set).clipboard(),
{
    assert(ids_on(old(moved)@.graph->0.rows).len() == 0);
    assert(ids_on(old(set)@.graph->0.rows).len() == 0);
}

/// What is to be asked for next: the page after the loaded commits, in the scope that is shown, if
/// the cursor is near the loaded end and the history is not finished, and else nothing.
pub proof fn next_page_follows_the_loaded_commits<G: GitService, R: LineRenderer, C: Clipboard>(
    ctrl: &Controller<G, R, C>,
    ask: Option<(bool, usize, usize)>,
)
    requires
        call_ensures(Controller::<G, R, C>::next_page, (ctrl,), ask),
    ensures
        ctrl@.graph is None ==> ask is None,
        ctrl@.graph matches Some(graph) ==> {
            &&& ask is Some <==> !graph.exhausted && graph.cursor + LOAD_MORE_MARGIN
                >= graph.rows.len()
            &&& ask matches Some((all, skip, limit)) ==> all == graph.all && skip == graph.commits
                && limit == PAGE
        },
{
}

proof fn added_page_joins_up<R: LineRenderer>(
    history: Seq<Seq<char>>,
    before: GraphModel,
    page: Seq<CommitRow>,
    renderer: R,
    after: GraphModel,
)
    requires
        shows_first_of(before, history),
        before.commits == ids_on(before.rows).len(),
        is_page_at(history, before.commits as int, PAGE as int, page),
        is_page_added(before, page, renderer, after),
    ensures
        shows_first_of(after, history),
        after.exhausted || after.commits == before.commits + PAGE,
{
    ids_join(before.rows, page);
    let n = before.commits as int;
    let m = after.commits as int;
    if n >= history.len() {
        assert(ids_on(page) == Seq::<Seq<char>>::empty());
        assert(history.take(n) == history);
        assert(ids_on(after.rows) == history);
        assert(history.take(m) == history);
    } else if history.len() < n + PAGE {
        assert(history.take(n) + history.skip(n) == history);
        assert(history.take(m) == history);
    } else {
        assert(history.take(n) + history.subrange(n, n + PAGE) == history.take(n + PAGE));
        assert(m == n + PAGE);
    }
}

/// If git answers every request with the page of one history that it asks for, the section shows
/// the start of that history from the first page on.
pub proof fn first_page_shows_the_start<G: GitService, R: LineRenderer, C: Clipboard>(
    history: Seq<Seq<char>>,
    ctrl: &mut Controller<G, R, C>,
    fx: Effects,
)
    requires
        forall|service: &mut G, skip: usize, limit: usize, page: Vec<CommitRow>|
            #[trigger] call_ensures(G::log_graph, (service, false, skip, limit), page)
                ==> is_page_at(history, skip as int, limit as int, page@),
        call_ensures(Controller::<G, R, C>::toggle_graph, (ctrl,), fx),
        ctrl@.graph is None,
        ctrl@.is_git_repo,
    ensures
        final(ctrl)@.graph is Some,
        shows_first_of(final(ctrl)@.graph->0, history),
{
    showing_loads_the_first_page(ctrl, fx);
    let graph = final(ctrl)@.graph->0;
    let (service, page, none) = choose|service: &mut G, page: Vec<CommitRow>, none: GraphModel|
        {
            &&& #[trigger] call_ensures(G::log_graph, (service, false, 0usize, PAGE), page)
            &&& *service == old(ctrl).git()
            &&& *final(service) == final(ctrl).git()
            &&& is_unloaded(none, false)
            &&& final(ctrl)@.graph is Some
            &&& #[trigger] is_page_added(none, page@, old(ctrl).renderer(), graph)
        };
    assert(history.take(0) == Seq::<Seq<char>>::empty());
    assert(ids_on(none.rows) == Seq::<Seq<char>>::empty());
    assert(is_page_at(history, 0, PAGE as int, page@));
    added_page_joins_up(history, none, page@, old(ctrl).renderer(), graph);
}

/// If git answers every request with the page of one history that it asks for, the section goes on
/// showing the start of that history, without a gap or a repeat, however many commits are loaded:
/// each load brings the next page, and the history is finished only when all of it is shown.
pub proof fn further_pages_show_what_follows<G: GitService, R: LineRenderer, C: Clipboard>(
    history: Seq<Seq<char>>,
    ctrl: &mut Controller<G, R, C>,
)
    requires
        is_sound(ctrl@),
        ctrl@.graph is Some,
        forall|service: &mut G, skip: usize, limit: usize, page: Vec<CommitRow>|
            #[trigger] call_ensures(
                G::log_graph,
                (service, ctrl@.graph->0.all, skip, limit),
                page,
            ) ==> is_page_at(history, skip as int, limit as int, page@),
        shows_first_of(ctrl@.graph->0, history),
        call_ensures(Controller::<G, R, C>::maybe_load_more, (ctrl,), ()),
    ensures
        final(ctrl)@.graph is Some,
        shows_first_of(final(ctrl)@.graph->0, history),
        ({
            let before = old(ctrl)@.graph->0;
            let after = final(ctrl)@.graph->0;
            !before.exhausted && before.cursor + LOAD_MORE_MARGIN >= before.rows.len()
                ==> after.exhausted || after.commits == before.commits + PAGE
        }),
{
    more_is_loaded_after_the_loaded_commits(ctrl);
    let before = old(ctrl)@.graph->0;
    let after = final(ctrl)@.graph->0;
    let renderer = old(ctrl).renderer();
    let put = GraphModel { cursor: after.cursor, ..before };
    if !before.exhausted && before.cursor + LOAD_MORE_MARGIN >= before.rows.len() {
        let (service, page, skip) = choose|service: &mut G, page: Vec<CommitRow>, skip: usize|
            {
                &&& #[trigger] call_ensures(
                    G::log_graph,
                    (service, before.all, skip, PAGE),
                    page,
                )
                &&& skip == before.commits
                &&& *service == old(ctrl).git()
                &&& *final(service) == final(ctrl).git()
                &&& is_page_added(put, page@, renderer, after)
            };
        assert(is_page_at(history, skip as int, PAGE as int, page@));
        added_page_joins_up(history, put, page@, renderer, after);
    }
}

/// If git answers every request with the page of one history that it asks for, moving through the
/// graph goes on showing the start of that history, and never comes to the end of the loaded rows
/// before the end of the history.
pub proof fn moving_shows_what_follows<G: GitService, R: LineRenderer, C: Clipboard>(
    history: Seq<Seq<char>>,
    ctrl: &mut Controller<G, R, C>,
    delta: isize,
    fx: Effects,
)
    requires
        is_sound(ctrl@),
        ctrl@.graph is Some,
        ctrl@.graph->0.rows.len() > 0,
        forall|service: &mut G, skip: usize, limit: usize, page: Vec<CommitRow>|
            #[trigger] call_ensures(
                G::log_graph,
                (service, ctrl@.graph->0.all, skip, limit),
                page,
            ) ==> is_page_at(history, skip as int, limit as int, page@),
        shows_first_of(ctrl@.graph->0, history),
        call_ensures(Controller::<G, R, C>::graph_move, (ctrl, delta), fx),
    ensures
        final(ctrl)@.graph is Some,
        shows_first_of(final(ctrl)@.graph->0, history),
        final(ctrl)@.graph->0.exhausted || final(ctrl)@.graph->0.cursor + LOAD_MORE_MARGIN
            < final(ctrl)@.graph->0.rows.len(),
{
    moving_goes_to_the_closest_row(ctrl, delta, fx);
    let before = old(ctrl)@.graph->0;
    let after = final(ctrl)@.graph->0;
    let renderer = old(ctrl).renderer();
    let put = GraphModel { cursor: after.cursor, ..before };
    if !before.exhausted && put.cursor + LOAD_MORE_MARGIN >= before.rows.len() {
        let (service, page, skip) = choose|service: &mut G, page: Vec<CommitRow>, skip: usize|
            {
                &&& #[trigger] call_ensures(
                    G::log_graph,
                    (service, before.all, skip, PAGE),
                    page,
                )
                &&& skip == before.commits
                &&& *service == old(ctrl).git()
                &&& *final(service) == final(ctrl).git()
                &&& is_page_added(put, page@, renderer, after)
            };
        assert(is_page_at(history, skip as int, PAGE as int, page@));
        added_page_joins_up(history, put, page@, renderer, after);
        ids_are_counted(page@);
        page@.lemma_filter_len(|row: CommitRow| row.sha is Some);
    }
}

/// The same holds of setting the cursor.
pub proof fn setting_shows_what_follows<G: GitService, R: LineRenderer, C: Clipboard>(
    history: Seq<Seq<char>>,
    ctrl: &mut Controller<G, R, C>,
    idx: usize,
)
    requires
        is_sound(ctrl@),
        ctrl@.graph is Some,
        ctrl@.graph->0.rows.len() > 0,
        forall|service: &mut G, skip: usize, limit: usize, page: Vec<CommitRow>|
            #[trigger] call_ensures(
                G::log_graph,
                (service, ctrl@.graph->0.all, skip, limit),
                page,
            ) ==> is_page_at(history, skip as int, limit as int, page@),
        shows_first_of(ctrl@.graph->0, history),
        call_ensures(Controller::<G, R, C>::graph_set_cursor, (ctrl, idx), ()),
    ensures
        final(ctrl)@.graph is Some,
        shows_first_of(final(ctrl)@.graph->0, history),
        final(ctrl)@.graph->0.exhausted || final(ctrl)@.graph->0.cursor + LOAD_MORE_MARGIN
            < final(ctrl)@.graph->0.rows.len(),
{
    setting_goes_to_the_closest_row(ctrl, idx);
    let before = old(ctrl)@.graph->0;
    let after = final(ctrl)@.graph->0;
    let renderer = old(ctrl).renderer();
    let put = GraphModel { cursor: after.cursor, ..before };
    if !before.exhausted && put.cursor + LOAD_MORE_MARGIN >= before.rows.len() {
        let (service, page, skip) = choose|service: &mut G, page: Vec<CommitRow>, skip: usize|
            {
                &&& #[trigger] call_ensures(
                    G::log_graph,
                    (service, before.all, skip, PAGE),
                    page,
                )
                &&& skip == before.commits
                &&& *service == old(ctrl).git()
                &&& *final(service) == final(ctrl).git()
                &&& is_page_added(put, page@, renderer, after)
            };
        assert(is_page_at(history, skip as int, PAGE as int, page@));
        added_page_joins_up(history, put, page@, renderer, after);
        ids_are_counted(page@);
        page@.lemma_filter_len(|row: CommitRow| row.sha is Some);
    }
}

/// What a copy takes is the id on the selected row, and nothing if that row belongs to no commit:
/// in full, or its start of seven characters. So the short copy starts the full one.
pub proof fn selected_id_is_copied<G: GitService, R: LineRenderer, C: Clipboard>(
    ctrl: &Controller<G, R, C>,
    whole: Option<String>,
    short: Option<String>,
)
    requires
        call_ensures(Controller::<G, R, C>::copy_text, (ctrl, true), whole),
        call_ensures(Controller::<G, R, C>::copy_text, (ctrl, false), short),
    ensures
        whole is Some <==> id_under_cursor(ctrl@) is Some,
        short is Some <==> id_under_cursor(ctrl@) is Some,
        whole matches Some(text) ==> text@ == id_under_cursor(ctrl@)->0,
        short matches Some(text) ==> is_form_of(text@, id_under_cursor(ctrl@)->0, false),
        short matches Some(text) ==> text@.is_prefix_of(whole->0@),
{
}

/// A copy hands the id on the selected row to the clipboard, once, in the form that is wanted, and
/// tells what came of it. If the row belongs to no commit nothing is copied or told. All else
/// stays, and git is not asked.
pub proof fn copy_hands_over_the_selected_id<G: GitService, R: LineRenderer, C: Clipboard>(
    ctrl: &mut Controller<G, R, C>,
    full: bool,
    fx: Effects,
)
    requires
        is_sound(ctrl@),
        call_ensures(Controller::<G, R, C>::copy_commit_sha, (ctrl, full), fx),
    ensures
        id_under_cursor(old(ctrl)@) is None ==> {
            &&& final(ctrl)@ == old(ctrl)@
            &&& final(ctrl).clipboard() == old(ctrl).clipboard()
            &&& !fx.redraw && !fx.quit
        },
        id_under_cursor(old(ctrl)@) matches Some(id) ==> {
            &&& fx.redraw && !fx.quit
            &&& exists|clipboard: &mut C, text: &str, reply: Result<(), String>|
                {
                    &&& #[trigger] call_ensures(C::copy, (clipboard, text), reply)
                    &&& *clipboard == old(ctrl).clipboard()
                    &&& *final(clipboard) == final(ctrl).clipboard()
                    &&& is_form_of(text@, id, full)
                    &&& final(ctrl)@.action_notice is Some
                    &&& reply is Ok ==> final(ctrl)@.action_notice->0 == "Copied "@ + text@
                    &&& reply matches Err(reason) ==> final(ctrl)@.action_notice->0
                        == "Could not copy commit id: "@ + reason@
                }
        },
        final(ctrl)@.graph == old(ctrl)@.graph,
        final(ctrl)@.focus == old(ctrl)@.focus,
        final(ctrl)@.is_git_repo == old(ctrl)@.is_git_repo,
        final(ctrl)@.graph_pct == old(ctrl)@.graph_pct,
        final(ctrl)@.pct_range == old(ctrl)@.pct_range,
        final(ctrl)@.graph_scroll == old(ctrl)@.graph_scroll,
        final(ctrl).git() == old(ctrl).git(),
        final(ctrl).renderer() == old(ctrl).renderer(),
        is_sound(final(ctrl)@),
{
    well_formed_is_sound(final(ctrl)@);
}

/// The user is told what was copied, or why it was not. All else stays.
pub proof fn outcome_of_a_copy_is_told<G: GitService, R: LineRenderer, C: Clipboard>(
    ctrl: &mut Controller<G, R, C>,
    text: &str,
    reply: Result<(), String>,
)
    requires
        call_ensures(Controller::<G, R, C>::note_copy, (ctrl, text, reply), ()),
    ensures
        final(ctrl)@.action_notice is Some,
        reply is Ok ==> final(ctrl)@.action_notice->0 == "Copied "@ + text@,
        reply matches Err(reason) ==> final(ctrl)@.action_notice->0
            == "Could not copy commit id: "@ + reason@,
        final(ctrl)@.graph == old(ctrl)@.graph,
        final(ctrl)@.focus == old(ctrl)@.focus,
        final(ctrl)@.is_git_repo == old(ctrl)@.is_git_repo,
        final(ctrl)@.graph_pct == old(ctrl)@.graph_pct,
        final(ctrl)@.pct_range == old(ctrl)@.pct_range,
        final(ctrl)@.graph_scroll == old(ctrl)@.graph_scroll,
        final(ctrl).git() == old(ctrl).git(),
        final(ctrl).renderer() == old(ctrl).renderer(),
        final(ctrl).clipboard() == old(ctrl).clipboard(),
{
}

/// The focus goes from the graph to the content, from there to the tree, and from there to the
/// graph if it is open and else to the content. All else stays.
pub proof fn focus_goes_to_the_next_region<G: GitService, R: LineRenderer, C: Clipboard>(
    ctrl: &mut Controller<G, R, C>,
    fx: Effects,
)
    requires
        call_ensures(Controller::<G, R, C>::toggle_focus, (ctrl,), fx),
    ensures
        old(ctrl)@.focus == Focus::Graph ==> final(ctrl)@.focus == Focus::Content,
        old(ctrl)@.focus == Focus::Content ==> final(ctrl)@.focus == Focus::Tree,
        old(ctrl)@.focus == Focus::Tree && old(ctrl)@.graph is Some ==> final(ctrl)@.focus
            == Focus::Graph,
        old(ctrl)@.focus == Focus::Tree && old(ctrl)@.graph is None ==> final(ctrl)@.focus
            == Focus::Content,
        final(ctrl)@.graph == old(ctrl)@.graph,
        final(ctrl)@.is_git_repo == old(ctrl)@.is_git_repo,
        final(ctrl)@.graph_pct == old(ctrl)@.graph_pct,
        final(ctrl)@.pct_range == old(ctrl)@.pct_range,
        final(ctrl)@.graph_scroll == old(ctrl)@.graph_scroll,
        final(ctrl)@.action_notice == old(ctrl)@.action_notice,
        final(ctrl).git() == old(ctrl).git(),
        final(ctrl).renderer() == old(ctrl).renderer(),
        final(ctrl).clipboard() == old(ctrl).clipboard(),
        fx.redraw && !fx.quit,
{
}

/// Scrolling sets the first row that is drawn. All else stays.
pub proof fn scrolling_moves_nothing_else<G: GitService, R: LineRenderer, C: Clipboard>(
    ctrl: &mut Controller<G, R, C>,
    scroll: usize,
)
    requires
        call_ensures(Controller::<G, R, C>::set_graph_scroll, (ctrl, scroll), ()),
    ensures
        final(ctrl)@.graph_scroll == scroll,
        final(ctrl)@.graph == old(ctrl)@.graph,
        final(ctrl)@.focus == old(ctrl)@.focus,
        final(ctrl)@.is_git_repo == old(ctrl)@.is_git_repo,
        final(ctrl)@.graph_pct == old(ctrl)@.graph_pct,
        final(ctrl)@.pct_range == old(ctrl)@.pct_range,
        final(ctrl)@.action_notice == old(ctrl)@.action_notice,
        final(ctrl).git() == old(ctrl).git(),
        final(ctrl).renderer() == old(ctrl).renderer(),
        final(ctrl).clipboard() == old(ctrl).clipboard(),
{
}

/// A frame draws the section if it is shown: every ingested line in order, the selection, the
/// scroll, and a title that names the scope; and it draws the focus, the divider and what the user
/// was told.
pub proof fn frame_draws_the_state<G: GitService, R: LineRenderer, C: Clipboard>(
    ctrl: &Controller<G, R, C>,
    view: Option<GraphView>,
    frame: ViewState,
)
    requires
        call_ensures(Controller::<G, R, C>::graph_view, (ctrl,), view),
        call_ensures(Controller::<G, R, C>::view_state, (ctrl,), frame),
    ensures
        view is Some <==> ctrl@.graph is Some,
        frame.graph is Some <==> ctrl@.graph is Some,
        ctrl@.graph matches Some(graph) ==> {
            &&& view->0.lines@ == graph.lines
            &&& view->0.cursor == graph.cursor
            &&& view->0.scroll == ctrl@.graph_scroll
            &&& graph.all ==> view->0.title@ == "History · all"@
            &&& !graph.all ==> view->0.title@ == "History"@
            &&& frame.graph->0.lines@ == graph.lines
            &&& frame.graph->0.cursor == graph.cursor
            &&& frame.graph->0.scroll == ctrl@.graph_scroll
            &&& frame.graph->0.title@ == view->0.title@
        },
        frame.focus == ctrl@.focus,
        frame.graph_pct == ctrl@.graph_pct,
        frame.action_notice is Some <==> ctrl@.action_notice is Some,
        frame.action_notice matches Some(notice) ==> notice@ == ctrl@.action_notice->0,
{
}

/// Every operation can be called in every sound state.
pub proof fn sound_states_can_go_on<G: GitService, R: LineRenderer, C: Clipboard>(
    ctrl: &mut Controller<G, R, C>,
    seen: &Controller<G, R, C>,
    full: bool,
    delta: isize,
    points: i16,
    idx: usize,
)
    requires
        is_sound(ctrl@),
    ensures
        call_requires(Controller::<G, R, C>::toggle_graph, (ctrl,)),
        call_requires(Controller::<G, R, C>::toggle_all_branches, (ctrl,)),
        call_requires(Controller::<G, R, C>::shrink_graph, (ctrl,)),
        call_requires(Controller::<G, R, C>::grow_graph, (ctrl,)),
        -1000 <= points <= 1000 ==> call_requires(
            Controller::<G, R, C>::resize_graph,
            (ctrl, points),
        ),
        call_requires(Controller::<G, R, C>::graph_move, (ctrl, delta)),
        call_requires(Controller::<G, R, C>::graph_set_cursor, (ctrl, idx)),
        call_requires(Controller::<G, R, C>::maybe_load_more, (ctrl,)),
        call_requires(Controller::<G, R, C>::copy_commit_sha, (ctrl, full)),
        call_requires(Controller::<G, R, C>::toggle_focus, (ctrl,)),
        call_requires(Controller::<G, R, C>::next_page, (seen,)),
        call_requires(Controller::<G, R, C>::copy_text, (seen, full)),
        call_requires(Controller::<G, R, C>::graph_view, (seen,)),
        call_requires(Controller::<G, R, C>::view_state, (seen,)),
{
    well_formed_is_sound(old(ctrl)@);
}

} // verus!
