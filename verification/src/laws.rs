//! What holds of the commands taken together, proved from their definitions.

use crate::commands::{
    create_step, created, delivered_count, opened_answer, window_answer, CreateStepView,
};
use crate::encoding::{
    is_encoded_char, lemma_percent_encoded_is_url_safe, percent_encoded,
};
use crate::host::{OpenReply, WindowReply};
use crate::label::{
    is_session_label, lemma_session_label_is_session_window,
    lemma_session_labels_are_the_session_windows, session_label, session_labels,
};
use crate::request::{
    encoded_path, query_part, session_url, CreateSessionWindowParamsView,
    WindowCreationResultView,
};
use vstd::prelude::*;
use vstd::utf8::encode_utf8;

verus! {

/// A host that does what it is asked, as seen from a request for a session
/// window: it reports a window as focused where it has one under the label,
/// and as not found where it has none.
pub open spec fn obliging_lookup(windows: Set<Seq<char>>, window_label: Seq<char>) -> WindowReply {
    if windows.contains(window_label) {
        WindowReply::Done
    } else {
        WindowReply::NotFound
    }
}

/// The labels of the host's windows once it has carried out a step: a window
/// that it was asked to open is there under the label asked for, and nothing
/// else has changed.
pub open spec fn windows_after(windows: Set<Seq<char>>, step: CreateStepView) -> Set<Seq<char>> {
    match step {
        CreateStepView::Open(window) => windows.insert(window.label),
        CreateStepView::Finished(_) => windows,
    }
}

/// The answer that a step leads to where the host opens what it is asked to
/// open.
pub open spec fn obliging_answer(
    step: CreateStepView,
) -> Result<WindowCreationResultView, Seq<char>> {
    match step {
        CreateStepView::Open(window) => opened_answer(window.label, OpenReply::Opened),
        CreateStepView::Finished(answer) => answer,
    }
}

/// Asking twice for the window of one tab gives one window. Whatever windows
/// the host has, and whatever else the two requests hold, the first request
/// ends in success under the tab's label; after it the host has a window under
/// that label; the second request then opens nothing, leaves the host's
/// windows as they are and ends in success under the same label.
pub proof fn lemma_create_twice_gives_one_window(
    windows: Set<Seq<char>>,
    first: CreateSessionWindowParamsView,
    second: CreateSessionWindowParamsView,
)
    requires
        first.tab_id == second.tab_id,
    ensures
        ({
            let window_label = session_label(first.tab_id);
            let first_step = create_step(first, obliging_lookup(windows, window_label));
            let then = windows_after(windows, first_step);
            let second_step = create_step(second, obliging_lookup(then, window_label));
            &&& obliging_answer(first_step) == Ok::<WindowCreationResultView, Seq<char>>(
                created(window_label),
            )
            &&& then.contains(window_label)
            &&& second_step == CreateStepView::Finished(Ok(created(window_label)))
            &&& windows_after(then, second_step) == then
        }),
{
}

/// A request for a tab whose window the host has found never opens a window,
/// whether or not the host could focus the one that is there.
pub proof fn lemma_existing_window_is_not_opened_again(
    params: CreateSessionWindowParamsView,
    existing: WindowReply,
)
    requires
        !(existing is NotFound),
    ensures
        create_step(params, existing) is Finished,
        existing is Done ==> create_step(params, existing) == CreateStepView::Finished(
            Ok(created(session_label(params.tab_id))),
        ),
{
}

/// The window that a request opens is listed as a session window from then
/// on, whatever other windows the host has open.
pub proof fn lemma_opened_window_is_listed(
    windows: Seq<Seq<char>>,
    params: CreateSessionWindowParamsView,
)
    ensures
        create_step(params, WindowReply::NotFound) matches CreateStepView::Open(window)
            && is_session_label(window.label) && session_labels(
            windows.push(window.label),
        ).contains(window.label),
{
    let window_label = session_label(params.tab_id);
    lemma_session_label_is_session_window(params.tab_id);
    let now = windows.push(window_label);
    assert(now[now.len() - 1] == window_label);
    lemma_session_labels_are_the_session_windows(now);
}

/// Closing, focusing and sending to a window that the host does not have all
/// fail alike, with "not found" and the label, whatever the command.
pub proof fn lemma_missing_window_is_not_found(failure: Seq<char>, window_label: Seq<char>)
    ensures
        window_answer(failure, window_label, WindowReply::NotFound) == Err::<(), Seq<char>>(
            "Window not found: "@ + window_label,
        ),
{
}

/// A broadcast counts each window by itself: one report among others adds one
/// to the count where the event reached its window and nothing where it did
/// not, and the windows before and after it count as they would without it.
pub proof fn lemma_broadcast_counts_each_window(
    before: Seq<WindowReply>,
    reply: WindowReply,
    after: Seq<WindowReply>,
)
    ensures
        delivered_count(before + seq![reply] + after) == delivered_count(before) + delivered_count(
            seq![reply],
        ) + delivered_count(after),
        delivered_count(seq![reply]) == (if reply is Done {
            1nat
        } else {
            0nat
        }),
{
    let reached = |reply: WindowReply| reply is Done;
    Seq::filter_distributes_over_add(before + seq![reply], after, reached);
    Seq::filter_distributes_over_add(before, seq![reply], reached);
    assert(seq![reply] =~= Seq::<WindowReply>::empty().push(reply));
    Seq::<WindowReply>::empty().lemma_filter_push(reply, reached);
    assert(Seq::<WindowReply>::empty().filter(reached).len() == 0) by {
        Seq::<WindowReply>::empty().lemma_filter_len(reached);
    }
}

/// A broadcast never counts more windows than it was sent to, and counts all
/// of them exactly where every delivery succeeded.
pub proof fn lemma_broadcast_count_is_bounded(deliveries: Seq<WindowReply>)
    ensures
        delivered_count(deliveries) <= deliveries.len(),
        delivered_count(deliveries) == deliveries.len() <==> forall|i: int|
            0 <= i < deliveries.len() ==> #[trigger] deliveries[i] is Done,
    decreases deliveries.len(),
{
    let reached = |reply: WindowReply| reply is Done;
    if deliveries.len() == 0 {
        assert(deliveries.filter(reached).len() <= deliveries.len()) by {
            deliveries.lemma_filter_len(reached);
        }
    } else {
        let front = deliveries.drop_last();
        let last = deliveries.last();
        lemma_broadcast_count_is_bounded(front);
        assert(deliveries =~= front.push(last));
        front.lemma_filter_push(last, reached);
        if delivered_count(deliveries) == deliveries.len() {
            assert forall|i: int| 0 <= i < deliveries.len() implies #[trigger] deliveries[i] is Done by {
                if i < front.len() {
                    assert(front[i] is Done);
                }
            }
        }
        if forall|i: int| 0 <= i < deliveries.len() ==> #[trigger] deliveries[i] is Done {
            assert forall|i: int| 0 <= i < front.len() implies #[trigger] front[i] is Done by {
                assert(deliveries[i] is Done);
            }
        }
    }
}

/// The project path reaches the address in unreserved characters and `%`
/// only: whatever the path holds, no `&`, `=`, `#`, `?`, `/`, blank or
/// character outside ASCII of it stands in the query string.
pub proof fn lemma_project_path_is_url_safe(project_path: Seq<char>)
    ensures
        forall|i: int|
            0 <= i < percent_encoded(project_path).len() ==> is_encoded_char(
                #[trigger] percent_encoded(project_path)[i],
            ),
        query_part("&project_path="@, encoded_path(Some(project_path))) == "&project_path="@
            + percent_encoded(project_path),
{
    lemma_percent_encoded_is_url_safe(encode_utf8(project_path));
}

/// The address names the tab in every case: it starts with the root page,
/// the window kind and the tab. Where the request gives no session, no project
/// path and no engine, that is the whole of it.
pub proof fn lemma_url_names_the_tab(params: CreateSessionWindowParamsView)
    ensures
        ("/?window=session&tab_id="@ + params.tab_id).is_prefix_of(session_url(params)),
        params.session_id is None && params.project_path is None && params.engine is None
            ==> session_url(params) == "/?window=session&tab_id="@ + params.tab_id,
{
    let head = "/?window=session&tab_id="@ + params.tab_id;
    let url = session_url(params);
    assert(url.subrange(0, head.len() as int) =~= head);
    if params.session_id is None && params.project_path is None && params.engine is None {
        assert(url =~= head);
    }
}

} // verus!
