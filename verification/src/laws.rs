//! What holds of the section across its intents.
use crate::controller::{
    ControllerModel, GitService, GraphModel, LineRenderer, GRAPH_PCT_STEP, LOAD_MORE_MARGIN, SHORT_ID,
};
use crate::history::{CommitRow, PAGE};
use crate::presenter::Focus;
use ratatui::text::Line;
use vstd::prelude::*;

verus! {

/// The ids of the commits on some rows, in order.
pub open spec fn commit_ids(rows: Seq<CommitRow>) -> Seq<Seq<char>> {
    rows.filter(|row: CommitRow| row.sha is Some).map_values(|row: CommitRow| row.sha->0@)
}

/// The smaller of two numbers.
pub open spec fn least(a: int, b: int) -> int {
    if a <= b {
        a
    } else {
        b
    }
}

/// `page` shows the commits of `history` that come after the first `skip` ones, `limit` of them or
/// as many as there are.
pub open spec fn is_page_of(
    history: Seq<Seq<char>>,
    skip: nat,
    limit: nat,
    page: Seq<CommitRow>,
) -> bool {
    let len = history.len() as int;
    commit_ids(page) == history.subrange(least(skip as int, len), least((skip + limit) as int, len))
}

/// The graph shows the start of `history`, and all of it if it is exhausted.
pub open spec fn shows_start_of(graph: GraphModel, history: Seq<Seq<char>>) -> bool {
    &&& graph.commits <= history.len()
    &&& commit_ids(graph.rows) == history.take(graph.commits as int)
    &&& graph.exhausted ==> graph.commits == history.len()
}

/// Asking for the page after the commits that are loaded leaves no gap and repeats nothing: if
/// git pages through one history, the loaded commits are always its start. A page that is not the
/// last brings as many commits as were asked for, and the history is marked as exhausted only
/// when all of it is loaded.
pub proof fn pages_join_up<R: LineRenderer>(
    history: Seq<Seq<char>>,
    before: GraphModel,
    page: Seq<CommitRow>,
    renderer: R,
    after: GraphModel,
)
    requires
        before.is_aligned(),
        shows_start_of(before, history),
        is_page_of(history, before.commits, PAGE as nat, page),
        before.grows_to(page, renderer, after),
    ensures
        shows_start_of(after, history),
        after.exhausted || after.commits == before.commits + PAGE,
{
    let has_id = |row: CommitRow| row.sha is Some;
    let id = |row: CommitRow| row.sha->0@;
    Seq::filter_distributes_over_add(before.rows, page, has_id);
    let n = before.commits as int;
    let m = least(n + PAGE, history.len() as int);
    assert(commit_ids(page).len() == page.filter(has_id).len());
    assert(commit_ids(after.rows) == commit_ids(before.rows) + commit_ids(page));
    assert(history.take(m) == history.take(n) + history.subrange(n, m));
}

/// The graph before anything is loaded shows the start of every history, so that the first page
/// joins up like the others.
pub proof fn nothing_loaded_is_a_start(history: Seq<Seq<char>>, all: bool)
    ensures
        GraphModel::empty(all).is_aligned(),
        shows_start_of(GraphModel::empty(all), history),
{
    reveal(Seq::filter);
    assert(commit_ids(Seq::empty()) == Seq::<Seq<char>>::empty());
    assert(history.take(0) == Seq::<Seq<char>>::empty());
}

/// Loading a page leaves the loaded rows, their display lines, the selection and the scope as they
/// were, and never makes a finished history unfinished. A page of fewer rows than commits were
/// asked for finishes it.
pub proof fn loading_keeps_what_is_loaded<R: LineRenderer>(
    before: GraphModel,
    page: Seq<CommitRow>,
    renderer: R,
    after: GraphModel,
)
    requires
        before.is_aligned(),
        before.grows_to(page, renderer, after),
    ensures
        after.rows.take(before.rows.len() as int) == before.rows,
        after.lines.take(before.lines.len() as int) == before.lines,
        after.cursor == before.cursor,
        after.all == before.all,
        after.commits >= before.commits,
        before.exhausted ==> after.exhausted,
        page.len() < PAGE ==> after.exhausted,
{
    page.lemma_filter_len(|row: CommitRow| row.sha is Some);
}

/// The renderer shows a row in one way only.
pub open spec fn shows_in_one_way<R: LineRenderer>(renderer: R) -> bool {
    forall|row: CommitRow, a: Line<'static>, b: Line<'static>|
        #![trigger crate::controller::ingested(renderer, row, a), crate::controller::ingested(
            renderer,
            row,
            b,
        )]
        crate::controller::ingested(renderer, row, a) && crate::controller::ingested(
            renderer,
            row,
            b,
        ) ==> a == b
}

/// With a renderer that shows a row in one way only, what a page makes of a graph is fixed.
pub proof fn growth_is_fixed<R: LineRenderer>(
    before: GraphModel,
    page: Seq<CommitRow>,
    renderer: R,
    a: GraphModel,
    b: GraphModel,
)
    requires
        shows_in_one_way(renderer),
        before.grows_to(page, renderer, a),
        before.grows_to(page, renderer, b),
    ensures
        a == b,
{
    let n = before.lines.len() as int;
    let a_lines = a.lines.skip(n);
    let b_lines = b.lines.skip(n);
    assert forall|i: int| 0 <= i < page.len() implies a_lines[i] == b_lines[i] by {
        assert(crate::controller::ingested(renderer, page[i], a_lines[i]));
        assert(crate::controller::ingested(renderer, page[i], b_lines[i]));
    }
    assert(a_lines == b_lines);
}

/// Loading two pages one after the other is loading the joined page, but for whether the history
/// then counts as finished: the graph that the two pages make is one that the joined page makes.
pub proof fn two_pages_load_like_the_joined_one<R: LineRenderer>(
    before: GraphModel,
    a: Seq<CommitRow>,
    b: Seq<CommitRow>,
    renderer: R,
    mid: GraphModel,
    after: GraphModel,
)
    requires
        before.grows_to(a, renderer, mid),
        mid.grows_to(b, renderer, after),
    ensures
        before.grows_to(
            a + b,
            renderer,
            GraphModel {
                exhausted: before.exhausted || crate::controller::commit_count(a + b) < PAGE,
                ..after
            },
        ),
{
    Seq::filter_distributes_over_add(a, b, |row: CommitRow| row.sha is Some);
    let n = before.lines.len() as int;
    let m = mid.lines.len() as int;
    let lines = after.lines.skip(n);
    let a_lines = mid.lines.skip(n);
    let b_lines = after.lines.skip(m);
    assert(lines == a_lines + b_lines);
    assert forall|i: int| 0 <= i < (a + b).len() implies crate::controller::ingested(
        renderer,
        (a + b)[i],
        #[trigger] lines[i],
    ) by {
        if i < a.len() {
            assert(lines[i] == a_lines[i]);
        } else {
            assert(lines[i] == b_lines[i - a.len()]);
        }
    }
    let joined = GraphModel {
        exhausted: before.exhausted || crate::controller::commit_count(a + b) < PAGE,
        ..after
    };
    assert(joined.rows == before.rows + (a + b));
    assert(joined.lines == before.lines + lines);
    assert(joined == before.appended(a + b, lines));
}

/// A graph loaded in two pages has the rows, the commits, the selection and the scope of one
/// loaded from the joined page, and, if the renderer shows a row in one way only, its display
/// lines.
pub proof fn paged_and_joined_loads_agree<R: LineRenderer>(
    before: GraphModel,
    a: Seq<CommitRow>,
    b: Seq<CommitRow>,
    renderer: R,
    mid: GraphModel,
    paged: GraphModel,
    joined: GraphModel,
)
    requires
        before.grows_to(a, renderer, mid),
        mid.grows_to(b, renderer, paged),
        before.grows_to(a + b, renderer, joined),
    ensures
        paged.rows == joined.rows,
        paged.commits == joined.commits,
        paged.cursor == joined.cursor,
        paged.all == joined.all,
        shows_in_one_way(renderer) ==> paged.lines == joined.lines,
{
    two_pages_load_like_the_joined_one(before, a, b, renderer, mid, paged);
    if shows_in_one_way(renderer) {
        growth_is_fixed(
            before,
            a + b,
            renderer,
            GraphModel {
                exhausted: before.exhausted || crate::controller::commit_count(a + b) < PAGE,
                ..paged
            },
            joined,
        );
    }
}

/// Setting the cursor to a row is moving it by the difference: the cursor ends on the same row, so
/// both ask git for the same page or for none, and if git answers a request and the renderer shows
/// a row in one way only, both end in the same state and leave git alike.
pub proof fn setting_the_cursor_is_moving_it<G: GitService, R: LineRenderer>(
    state: ControllerModel,
    idx: int,
    delta: int,
    renderer: R,
    set_service: &mut G,
    set: ControllerModel,
    move_service: &mut G,
    moved: ControllerModel,
)
    requires
        state.has_rows(),
        delta == idx - state.graph->0.cursor,
        state.with_cursor_at(idx).needs_more() ==> {
            &&& *set_service == *move_service
            &&& state.with_cursor_at(idx).is_fed(set_service, renderer, set)
            &&& state.with_cursor_at(state.graph->0.cursor + delta).is_fed(
                move_service,
                renderer,
                moved,
            )
        },
        !state.with_cursor_at(idx).needs_more() ==> set == state.with_cursor_at(idx) && moved
            == state.with_cursor_at(state.graph->0.cursor + delta),
        shows_in_one_way(renderer),
        forall|
            a: &mut G,
            b: &mut G,
            all: bool,
            skip: nat,
            limit: nat,
            page_a: Vec<CommitRow>,
            page_b: Vec<CommitRow>,
        | #[trigger]
            crate::controller::git_answers(a, all, skip, limit, page_a) && #[trigger]
            crate::controller::git_answers(b, all, skip, limit, page_b) && *a == *b ==> page_a@
                == page_b@ && *final(a) == *final(b),
    ensures
        state.with_cursor_at(idx) == state.with_cursor_at(state.graph->0.cursor + delta),
        set == moved,
        state.with_cursor_at(idx).needs_more() ==> *final(set_service) == *final(move_service),
{
    let put = state.with_cursor_at(idx).graph->0;
    if put.needs_more() {
        let a = choose|page: Vec<CommitRow>| #[trigger]
            crate::controller::git_answers(set_service, put.all, put.commits, PAGE as nat, page)
                && put.grows_to(page@, renderer, set.graph->0);
        let b = choose|page: Vec<CommitRow>| #[trigger]
            crate::controller::git_answers(move_service, put.all, put.commits, PAGE as nat, page)
                && put.grows_to(page@, renderer, moved.graph->0);
        growth_is_fixed(put, a@, renderer, set.graph->0, moved.graph->0);
    }
}

/// Each display line of the graph is what `renderer` made of its row.
pub open spec fn is_ingested<R: LineRenderer>(graph: GraphModel, renderer: R) -> bool {
    &&& graph.lines.len() == graph.rows.len()
    &&& forall|i: int|
        0 <= i < graph.lines.len() ==> crate::controller::ingested(
            renderer,
            graph.rows[i],
            #[trigger] graph.lines[i],
        )
}

/// Each display line of a first page went through the renderer.
pub proof fn first_page_is_ingested<G: GitService, R: LineRenderer>(
    graph: GraphModel,
    service: &mut G,
    renderer: R,
    all: bool,
)
    requires
        graph.is_fresh(service, renderer, all),
    ensures
        is_ingested(graph, renderer),
{
    let page = choose|page: Vec<CommitRow>| #[trigger]
        crate::controller::git_answers(service, all, 0, PAGE as nat, page) && GraphModel::empty(
            all,
        ).grows_to(page@, renderer, graph);
    growing_ingests(GraphModel::empty(all), page@, renderer, graph);
}

/// Putting the cursor anywhere adds no display line, and the page that this may load adds only
/// lines that went through the renderer. So no other line is ever drawn.
pub proof fn further_pages_are_ingested<G: GitService, R: LineRenderer>(
    graph: GraphModel,
    row: int,
    service: &mut G,
    renderer: R,
    after: GraphModel,
)
    requires
        is_ingested(graph, renderer),
        graph.with_cursor_at(row).is_fed(service, renderer, after),
    ensures
        is_ingested(graph.with_cursor_at(row), renderer),
        is_ingested(after, renderer),
{
    let moved = graph.with_cursor_at(row);
    let page = choose|page: Vec<CommitRow>| #[trigger]
        crate::controller::git_answers(service, moved.all, moved.commits, PAGE as nat, page)
            && moved.grows_to(page@, renderer, after);
    growing_ingests(moved, page@, renderer, after);
}

proof fn growing_ingests<R: LineRenderer>(
    before: GraphModel,
    page: Seq<CommitRow>,
    renderer: R,
    after: GraphModel,
)
    requires
        is_ingested(before, renderer),
        before.grows_to(page, renderer, after),
    ensures
        is_ingested(after, renderer),
{
    let n = before.lines.len() as int;
    let lines = after.lines.skip(n);
    assert forall|i: int| 0 <= i < after.lines.len() implies crate::controller::ingested(
        renderer,
        after.rows[i],
        #[trigger] after.lines[i],
    ) by {
        if i < n {
            assert(after.lines[i] == before.lines[i]);
            assert(after.rows[i] == before.rows[i]);
        } else {
            assert(after.lines[i] == lines[i - n]);
            assert(after.rows[i] == page[i - n]);
        }
    }
}

/// Every id on the rows is a valid one.
pub open spec fn ids_are_valid(rows: Seq<CommitRow>) -> bool {
    forall|i: int|
        0 <= i < rows.len() && (#[trigger] rows[i]).sha is Some ==> crate::history::valid_sha(
            rows[i].sha->0@,
        )
}

/// If git's pages are rows that were read from its output, every loaded id is valid, and so is
/// every id that is copied, in its short form too.
pub proof fn copied_ids_are_valid<R: LineRenderer>(
    before: GraphModel,
    text: Seq<char>,
    page: Seq<CommitRow>,
    renderer: R,
    after: GraphModel,
    full: bool,
)
    requires
        ids_are_valid(before.rows),
        crate::history::row_models(page) == crate::history::log_rows(text),
        before.grows_to(page, renderer, after),
    ensures
        ids_are_valid(after.rows),
        after.selected_id(full) matches Some(id) ==> crate::history::valid_sha(id),
{
    let n = before.rows.len() as int;
    assert forall|i: int|
        0 <= i < after.rows.len() && (#[trigger] after.rows[i]).sha is Some implies crate::history::valid_sha(
        after.rows[i].sha->0@,
    ) by {
        if i < n {
            assert(after.rows[i] == before.rows[i]);
        } else {
            assert(after.rows[i] == page[i - n]);
            assert(crate::history::row_models(page)[i - n] == page[i - n]@);
            crate::history::ids_read_are_valid(text, i - n);
        }
    }
    if let Some(id) = after.selected_id(full) {
        short_id_starts_the_full_one(after.rows[after.cursor].sha->0@);
    }
}

/// Wherever the cursor is put, a finished history is not asked again: git is left as it was, and
/// nothing is added.
pub proof fn finished_history_is_not_asked_again<G: GitService, R: LineRenderer>(
    state: ControllerModel,
    row: int,
    git: G,
    renderer: R,
    after: ControllerModel,
    git_after: G,
)
    requires
        state.graph matches Some(graph) && graph.exhausted,
        if state.with_cursor_at(row).needs_more() {
            exists|service: &mut G|
                {
                    &&& *service == git
                    &&& *final(service) == git_after
                    &&& #[trigger] state.with_cursor_at(row).is_fed(service, renderer, after)
                }
        } else {
            after == state.with_cursor_at(row) && git_after == git
        },
    ensures
        git_after == git,
        after == state.with_cursor_at(row),
        after.graph->0.exhausted,
{
}

/// Wherever the cursor is put, it ends on a loaded row, and either the whole history is loaded or
/// more rows than the margin lie ahead of it.
pub proof fn more_rows_lie_ahead<G: GitService, R: LineRenderer>(
    state: ControllerModel,
    row: int,
    service: &mut G,
    renderer: R,
    after: ControllerModel,
)
    requires
        state.wf(),
        state.has_rows(),
        if state.with_cursor_at(row).needs_more() {
            state.with_cursor_at(row).is_fed(service, renderer, after)
        } else {
            after == state.with_cursor_at(row)
        },
    ensures
        after.graph is Some,
        0 <= after.graph->0.cursor < after.graph->0.rows.len(),
        after.graph->0.cursor == state.graph->0.nearest_row(row),
        after.graph->0.exhausted || after.graph->0.cursor + LOAD_MORE_MARGIN
            < after.graph->0.rows.len(),
{
    let moved = state.graph->0.with_cursor_at(row);
    let grown = after.graph->0;
    if moved.needs_more() {
        let page = choose|page: Vec<CommitRow>| #[trigger]
            crate::controller::git_answers(service, moved.all, moved.commits, PAGE as nat, page)
                && moved.grows_to(page@, renderer, grown);
        page@.lemma_filter_len(|row: CommitRow| row.sha is Some);
    }
}

/// Showing the section and hiding it again, wherever the focus went in between, brings back the
/// state from before, with the focus on the tree.
pub proof fn showing_and_hiding_returns(state: ControllerModel, graph: GraphModel, focus: Focus)
    requires
        state.graph is None,
    ensures
        (ControllerModel { focus, ..state.shown(graph) }).hidden() == (ControllerModel {
            focus: Focus::Tree,
            ..state
        }),
{
}

/// Switching the scope twice leads back to the first scope, each time with the selection on the
/// first row, and the rest of the state stays as it was.
pub proof fn scope_switches_back<G: GitService, R: LineRenderer>(
    state: ControllerModel,
    service: &mut G,
    next_service: &mut G,
    renderer: R,
    other: GraphModel,
    again: GraphModel,
)
    requires
        state.wf(),
        state.graph is Some,
        other.is_fresh(service, renderer, !state.graph->0.all),
        again.is_fresh(next_service, renderer, !other.all),
    ensures
        other.all != state.graph->0.all,
        other.cursor == 0,
        again.all == state.graph->0.all,
        again.cursor == 0,
        state.with_graph(other).with_graph(again) == state.with_graph(again),
{
}

/// The state after the divider was moved by `delta` points `n` times.
pub open spec fn resized_times(state: ControllerModel, delta: int, n: nat) -> ControllerModel
    decreases n,
{
    if n == 0 {
        state
    } else {
        resized_times(state, delta, (n - 1) as nat).resized(delta)
    }
}

/// Growing `n` times moves the divider by `n` steps, and no further than the greatest percentage.
pub proof fn growing_stops_at_the_maximum(state: ControllerModel, n: nat)
    requires
        state.wf(),
        state.graph is Some,
    ensures
        resized_times(state, GRAPH_PCT_STEP as int, n) == (ControllerModel {
            graph_pct: least(state.graph_pct + n * GRAPH_PCT_STEP, state.pct_range.max as int),
            ..state
        }),
    decreases n,
{
    if n > 0 {
        growing_stops_at_the_maximum(state, (n - 1) as nat);
    }
}

/// Shrinking `n` times moves the divider back by `n` steps, and no further than the least
/// percentage.
pub proof fn shrinking_stops_at_the_minimum(state: ControllerModel, n: nat)
    requires
        state.wf(),
        state.graph is Some,
    ensures
        resized_times(state, -(GRAPH_PCT_STEP as int), n) == (ControllerModel {
            graph_pct: -least(
                -(state.graph_pct - n * GRAPH_PCT_STEP),
                -(state.pct_range.min as int),
            ),
            ..state
        }),
    decreases n,
{
    if n > 0 {
        shrinking_stops_at_the_minimum(state, (n - 1) as nat);
    }
}

/// As long as the divider is not stopped at an end, moving it back returns it. So shrinking undoes
/// growing, and growing undoes shrinking.
pub proof fn moving_the_divider_back_returns(state: ControllerModel, delta: int)
    requires
        state.wf(),
        state.pct_range.min <= state.graph_pct + delta <= state.pct_range.max,
    ensures
        state.resized(delta).resized(-delta) == state,
{
}

/// While the section is hidden nothing can be resized, selected or copied, and no page is needed.
pub proof fn hidden_section_is_inert(state: ControllerModel, delta: int, row: int, full: bool)
    requires
        state.graph is None,
    ensures
        state.resized(delta) == state,
        state.with_cursor_at(row) == state,
        !state.with_cursor_at(row).needs_more(),
        state.selected_id(full) is None,
{
}

/// While the graph is open the focus passes through all three regions and returns; while it is
/// hidden the focus never reaches it.
pub proof fn focus_goes_round(state: ControllerModel)
    requires
        state.wf(),
    ensures
        ({
            let one = ControllerModel { focus: state.next_focus(), ..state };
            let two = ControllerModel { focus: one.next_focus(), ..state };
            let three = ControllerModel { focus: two.next_focus(), ..state };
            if state.graph is Some {
                &&& three.focus == state.focus
                &&& one.focus != state.focus && two.focus != state.focus && one.focus != two.focus
            } else {
                &&& two.focus == state.focus
                &&& one.focus != state.focus && one.focus != Focus::Graph
            }
        }),
{
}

/// Moving the cursor there and back returns it to its row, whatever was loaded on the way, as long
/// as the first move is not stopped at an end.
pub proof fn moving_back_returns<G: GitService, R: LineRenderer>(
    state: ControllerModel,
    delta: int,
    service: &mut G,
    next_service: &mut G,
    renderer: R,
    there: ControllerModel,
    back: ControllerModel,
)
    requires
        state.wf(),
        state.has_rows(),
        0 <= state.graph->0.cursor + delta < state.graph->0.rows.len(),
        ({
            let put = state.with_cursor_at(state.graph->0.cursor + delta);
            if put.needs_more() {
                put.is_fed(service, renderer, there)
            } else {
                there == put
            }
        }),
        ({
            let put = there.with_cursor_at(there.graph->0.cursor - delta);
            if put.needs_more() {
                put.is_fed(next_service, renderer, back)
            } else {
                back == put
            }
        }),
    ensures
        there.graph->0.cursor == state.graph->0.cursor + delta,
        back.graph->0.cursor == state.graph->0.cursor,
        back.graph->0.rows[back.graph->0.cursor] == state.graph->0.rows[state.graph->0.cursor],
{
}

/// The short form of a commit id is the start of the full one, and of a valid id it is text of
/// hexadecimal digits, seven of them unless the id is shorter.
pub proof fn short_id_starts_the_full_one(sha: Seq<char>)
    ensures
        crate::controller::short_id(sha).is_prefix_of(sha),
        crate::controller::short_id(sha).len() == least(SHORT_ID as int, sha.len() as int),
        crate::history::valid_sha(sha) ==> crate::history::valid_sha(
            crate::controller::short_id(sha),
        ),
{
    let short = crate::controller::short_id(sha);
    if crate::history::valid_sha(sha) {
        assert forall|i: int| 0 <= i < short.len() implies crate::history::is_hex_digit(
            #[trigger] short[i],
        ) by {
            assert(short[i] == sha[i]);
        }
    }
}

} // verus!
