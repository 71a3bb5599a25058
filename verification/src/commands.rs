//! The commands on session windows: what to ask of the host, and what to
//! answer the front-end after the host's report.

use crate::host::{OpenReply, WindowReply};
use crate::label::{session_label, session_window_label};
use crate::request::{
    new_session_window, session_window, CreateSessionWindowParams,
    CreateSessionWindowParamsView, NewWindow, NewWindowView, WindowCreationResult,
    WindowCreationResultView,
};
use vstd::prelude::*;

verus! {

/// How a request for a session window goes on after the host has looked for
/// the tab's window.
#[derive(Debug, PartialEq, Eq)]
pub enum CreateStep {
    /// Nothing is left to do; this is the answer for the front-end.
    Finished(Result<WindowCreationResult, String>),
    /// The host is to open this window and focus it. Its report then goes to
    /// [`session_window_opened`].
    Open(NewWindow),
}

/// A [`CreateStep`] as mathematical values.
pub enum CreateStepView {
    Finished(Result<WindowCreationResultView, Seq<char>>),
    Open(NewWindowView),
}

/// An answer to a request for a session window as mathematical values.
pub open spec fn creation_view(
    answer: Result<WindowCreationResult, String>,
) -> Result<WindowCreationResultView, Seq<char>> {
    match answer {
        Ok(result) => Ok(result@),
        Err(message) => Err(message@),
    }
}

/// An answer without a value as mathematical values.
pub open spec fn answer_view(answer: Result<(), String>) -> Result<(), Seq<char>> {
    match answer {
        Ok(_) => Ok(()),
        Err(message) => Err(message@),
    }
}

impl View for CreateStep {
    type V = CreateStepView;

    open spec fn view(&self) -> CreateStepView {
        match self {
            CreateStep::Finished(answer) => CreateStepView::Finished(creation_view(*answer)),
            CreateStep::Open(window) => CreateStepView::Open(window@),
        }
    }
}

/// The answer that names a tab's window as standing.
pub open spec fn created(window_label: Seq<char>) -> WindowCreationResultView {
    WindowCreationResultView { window_label, success: true }
}

/// How a request goes on. `existing` is the host's report on looking for the
/// tab's window and focusing it. A window that is there is never opened again:
/// the request ends with its label where the host focused it, and with the
/// host's message where it did not. Only where no window is there does the
/// host get one to open.
pub open spec fn create_step(
    params: CreateSessionWindowParamsView,
    existing: WindowReply,
) -> CreateStepView {
    match existing {
        WindowReply::NotFound => CreateStepView::Open(session_window(params)),
        WindowReply::Done => CreateStepView::Finished(Ok(created(session_label(params.tab_id)))),
        WindowReply::Failed(message) => CreateStepView::Finished(
            Err("Failed to focus window: "@ + message@),
        ),
    }
}

/// The answer after the host has tried to open a window.
pub open spec fn opened_answer(
    window_label: Seq<char>,
    reply: OpenReply,
) -> Result<WindowCreationResultView, Seq<char>> {
    match reply {
        OpenReply::Opened => Ok(created(window_label)),
        OpenReply::BuildFailed(message) => Err("Failed to create window: "@ + message@),
        OpenReply::FocusFailed(message) => Err("Failed to focus new window: "@ + message@),
    }
}

/// The answer after a request addressed to one window: success where the host
/// did it, "not found" with the label where the host has no such window, and
/// `failure` followed by the host's message where the host failed.
pub open spec fn window_answer(
    failure: Seq<char>,
    window_label: Seq<char>,
    reply: WindowReply,
) -> Result<(), Seq<char>> {
    match reply {
        WindowReply::Done => Ok(()),
        WindowReply::NotFound => Err("Window not found: "@ + window_label),
        WindowReply::Failed(message) => Err(failure + message@),
    }
}

/// How many of the deliveries reached their window.
pub open spec fn delivered_count(deliveries: Seq<WindowReply>) -> nat {
    deliveries.filter(|reply: WindowReply| reply is Done).len()
}

/// Decides how a request for a session window goes on.
///
/// The caller first asks the host to focus the window that is labelled
/// `session_window_label(&params.tab_id)`, and hands the report in as
/// `existing`. See [`create_step`] for the decision.
pub fn create_session_window(
    params: &CreateSessionWindowParams,
    existing: WindowReply,
) -> (step: CreateStep)
    ensures
        step@ == create_step(params@, existing),
        step is Open <==> existing is NotFound,
{
    match existing {
        WindowReply::NotFound => CreateStep::Open(new_session_window(params)),
        WindowReply::Done => CreateStep::Finished(
            Ok(
                WindowCreationResult {
                    window_label: session_window_label(params.tab_id.as_str()),
                    success: true,
                },
            ),
        ),
        WindowReply::Failed(message) => CreateStep::Finished(
            Err(failure_message("Failed to focus window: ", message.as_str())),
        ),
    }
}

/// Answers a request for a session window after the host has tried to open
/// the window `window_label`.
pub fn session_window_opened(
    window_label: String,
    reply: OpenReply,
) -> (answer: Result<WindowCreationResult, String>)
    ensures
        creation_view(answer) == opened_answer(window_label@, reply),
        answer is Ok <==> reply is Opened,
{
    match reply {
        OpenReply::Opened => Ok(WindowCreationResult { window_label, success: true }),
        OpenReply::BuildFailed(message) => Err(
            failure_message("Failed to create window: ", message.as_str()),
        ),
        OpenReply::FocusFailed(message) => Err(
            failure_message("Failed to focus new window: ", message.as_str()),
        ),
    }
}

/// Answers a request to close a window after the host's report.
pub fn close_session_window(
    window_label: &str,
    reply: WindowReply,
) -> (answer: Result<(), String>)
    ensures
        answer_view(answer) == window_answer("Failed to close window: "@, window_label@, reply),
        answer is Ok <==> reply is Done,
        reply is NotFound ==> answer_view(answer) == Err::<(), Seq<char>>(
            "Window not found: "@ + window_label@,
        ),
{
    answer_for("Failed to close window: ", window_label, reply)
}

/// Answers a request to focus a window after the host's report.
pub fn focus_session_window(
    window_label: &str,
    reply: WindowReply,
) -> (answer: Result<(), String>)
    ensures
        answer_view(answer) == window_answer("Failed to focus window: "@, window_label@, reply),
        answer is Ok <==> reply is Done,
        reply is NotFound ==> answer_view(answer) == Err::<(), Seq<char>>(
            "Window not found: "@ + window_label@,
        ),
{
    answer_for("Failed to focus window: ", window_label, reply)
}

/// Answers a request to send an event to one window after the host's report.
pub fn emit_to_window(window_label: &str, reply: WindowReply) -> (answer: Result<(), String>)
    ensures
        answer_view(answer) == window_answer("Failed to emit event: "@, window_label@, reply),
        answer is Ok <==> reply is Done,
        reply is NotFound ==> answer_view(answer) == Err::<(), Seq<char>>(
            "Window not found: "@ + window_label@,
        ),
{
    answer_for("Failed to emit event: ", window_label, reply)
}

/// Answers a broadcast after the host's reports.
///
/// `deliveries` holds one report for each session window that the event was
/// sent to. The answer counts the windows that the event reached. A delivery
/// that failed is left out of the count and changes nothing else; the
/// broadcast itself never fails.
pub fn broadcast_to_session_windows(
    deliveries: &Vec<WindowReply>,
) -> (answer: Result<u32, String>)
    requires
        delivered_count(deliveries@) <= u32::MAX,
    ensures
        answer is Ok,
        answer->Ok_0 == delivered_count(deliveries@),
{
    let ghost reached = |reply: WindowReply| reply is Done;
    let mut count: u32 = 0;
    let mut i: usize = 0;
    while i < deliveries.len()
        invariant
            i <= deliveries.len(),
            reached == (|reply: WindowReply| reply is Done),
            count == deliveries@.take(i as int).filter(reached).len(),
            delivered_count(deliveries@) <= u32::MAX,
        decreases deliveries.len() - i,
    {
        proof {
            let seen = deliveries@.take(i as int);
            assert(deliveries@.take(i + 1) =~= seen.push(deliveries[i as int]));
            seen.lemma_filter_push(deliveries[i as int], reached);
            lemma_delivered_count_grows(deliveries@, i + 1);
        }
        match &deliveries[i] {
            WindowReply::Done => {
                count += 1;
            },
            _ => {},
        }
        i += 1;
    }
    assert(deliveries@.take(i as int) =~= deliveries@);
    Ok(count)
}

/// `lead`, then the host's message.
fn failure_message(lead: &str, message: &str) -> (text: String)
    ensures
        text@ == lead@ + message@,
{
    let mut text = String::from_str(lead);
    text.append(message);
    text
}

/// The answer after a request addressed to one window.
fn answer_for(
    failure: &str,
    window_label: &str,
    reply: WindowReply,
) -> (answer: Result<(), String>)
    ensures
        answer_view(answer) == window_answer(failure@, window_label@, reply),
{
    match reply {
        WindowReply::Done => Ok(()),
        WindowReply::NotFound => Err(failure_message("Window not found: ", window_label)),
        WindowReply::Failed(message) => Err(failure_message(failure, message.as_str())),
    }
}

/// The deliveries counted among the first `n` are no more than those counted
/// among all.
proof fn lemma_delivered_count_grows(deliveries: Seq<WindowReply>, n: int)
    requires
        0 <= n <= deliveries.len(),
    ensures
        delivered_count(deliveries.take(n)) <= delivered_count(deliveries),
{
    let reached = |reply: WindowReply| reply is Done;
    let rest = deliveries.skip(n);
    assert(deliveries =~= deliveries.take(n) + rest);
    Seq::filter_distributes_over_add(deliveries.take(n), rest, reached);
}

} // verus!
