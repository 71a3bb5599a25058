//! The request for a session window, and the window that is asked of the host
//! for it.

use crate::encoding::{percent_encode, percent_encoded};
use crate::label::{session_label, session_window_label};
use vstd::prelude::*;

verus! {

/// Inner width of a new session window.
pub const SESSION_WINDOW_WIDTH: u32 = 1000;

/// Inner height of a new session window.
pub const SESSION_WINDOW_HEIGHT: u32 = 700;

/// The least inner width that a session window can be resized to.
pub const SESSION_WINDOW_MIN_WIDTH: u32 = 600;

/// The least inner height that a session window can be resized to.
pub const SESSION_WINDOW_MIN_HEIGHT: u32 = 400;

/// What the front-end sends to detach a tab into a window of its own.
#[derive(Debug, PartialEq, Eq)]
pub struct CreateSessionWindowParams {
    /// Identifier of the tab being detached; it goes into the window's label
    /// as it stands.
    pub tab_id: String,
    /// Identifier of the session, where the tab shows one that exists.
    pub session_id: Option<String>,
    /// Path of the project that the session works on.
    pub project_path: Option<String>,
    /// Title of the window.
    pub title: String,
    /// Tag of the engine that runs the session; it is not checked.
    pub engine: Option<String>,
}

/// A [`CreateSessionWindowParams`] as mathematical values.
pub struct CreateSessionWindowParamsView {
    pub tab_id: Seq<char>,
    pub session_id: Option<Seq<char>>,
    pub project_path: Option<Seq<char>>,
    pub title: Seq<char>,
    pub engine: Option<Seq<char>>,
}

impl View for CreateSessionWindowParams {
    type V = CreateSessionWindowParamsView;

    open spec fn view(&self) -> CreateSessionWindowParamsView {
        CreateSessionWindowParamsView {
            tab_id: self.tab_id@,
            session_id: self.session_id.deep_view(),
            project_path: self.project_path.deep_view(),
            title: self.title@,
            engine: self.engine.deep_view(),
        }
    }
}

/// What the front-end is told once its session window stands.
#[derive(Debug, PartialEq, Eq)]
pub struct WindowCreationResult {
    /// Label of the window that hosts the tab.
    pub window_label: String,
    /// Whether the window is there and focused.
    pub success: bool,
}

/// A [`WindowCreationResult`] as mathematical values.
pub struct WindowCreationResultView {
    pub window_label: Seq<char>,
    pub success: bool,
}

impl View for WindowCreationResult {
    type V = WindowCreationResultView;

    open spec fn view(&self) -> WindowCreationResultView {
        WindowCreationResultView { window_label: self.window_label@, success: self.success }
    }
}

/// A window for the host to open.
#[derive(Debug, PartialEq, Eq)]
pub struct NewWindow {
    /// Label under which the host is to know the window.
    pub label: String,
    /// Address, inside the application, that the window is to show.
    pub url: String,
    /// Title of the window.
    pub title: String,
    /// Inner width.
    pub width: u32,
    /// Inner height.
    pub height: u32,
    /// Least inner width.
    pub min_width: u32,
    /// Least inner height.
    pub min_height: u32,
    /// Whether the user can resize the window.
    pub resizable: bool,
    /// Whether the user can maximize the window.
    pub maximizable: bool,
    /// Whether the user can minimize the window.
    pub minimizable: bool,
    /// Whether the window shows as soon as it is built.
    pub visible: bool,
    /// Whether the system draws a frame and a title bar around the window.
    pub decorations: bool,
    /// Whether the window is placed in the middle of the screen.
    pub centered: bool,
}

/// A [`NewWindow`] as mathematical values.
pub struct NewWindowView {
    pub label: Seq<char>,
    pub url: Seq<char>,
    pub title: Seq<char>,
    pub width: u32,
    pub height: u32,
    pub min_width: u32,
    pub min_height: u32,
    pub resizable: bool,
    pub maximizable: bool,
    pub minimizable: bool,
    pub visible: bool,
    pub decorations: bool,
    pub centered: bool,
}

impl View for NewWindow {
    type V = NewWindowView;

    open spec fn view(&self) -> NewWindowView {
        NewWindowView {
            label: self.label@,
            url: self.url@,
            title: self.title@,
            width: self.width,
            height: self.height,
            min_width: self.min_width,
            min_height: self.min_height,
            resizable: self.resizable,
            maximizable: self.maximizable,
            minimizable: self.minimizable,
            visible: self.visible,
            decorations: self.decorations,
            centered: self.centered,
        }
    }
}

/// One optional parameter of the query string: `lead`, which holds the `&`,
/// the name and the `=`, then the value; nothing where the value is absent.
pub open spec fn query_part(lead: Seq<char>, value: Option<Seq<char>>) -> Seq<char> {
    match value {
        Some(text) => lead + text,
        None => Seq::empty(),
    }
}

/// The project path as it stands in the query string: percent-encoded.
pub open spec fn encoded_path(project_path: Option<Seq<char>>) -> Option<Seq<char>> {
    match project_path {
        Some(path) => Some(percent_encoded(path)),
        None => None,
    }
}

/// The address that a new session window shows: the root page with the
/// request in its query string. `window` and `tab_id` are always there; the
/// session, the project path and the engine follow in this order, each only
/// where the request has it. The tab, the session and the engine stand as
/// they are given, the project path percent-encoded.
pub open spec fn session_url(params: CreateSessionWindowParamsView) -> Seq<char> {
    "/?window=session&tab_id="@ + params.tab_id + query_part(
        "&session_id="@,
        params.session_id,
    ) + query_part("&project_path="@, encoded_path(params.project_path)) + query_part(
        "&engine="@,
        params.engine,
    )
}

/// The window that is opened for a request: frameless, since the front-end
/// draws its own title bar, resizable, centered, 1000 by 700 and never smaller
/// than 600 by 400.
pub open spec fn session_window(params: CreateSessionWindowParamsView) -> NewWindowView {
    NewWindowView {
        label: session_label(params.tab_id),
        url: session_url(params),
        title: params.title,
        width: SESSION_WINDOW_WIDTH,
        height: SESSION_WINDOW_HEIGHT,
        min_width: SESSION_WINDOW_MIN_WIDTH,
        min_height: SESSION_WINDOW_MIN_HEIGHT,
        resizable: true,
        maximizable: true,
        minimizable: true,
        visible: true,
        decorations: false,
        centered: true,
    }
}

/// The address that the session window of a request shows.
pub fn session_window_url(params: &CreateSessionWindowParams) -> (url: String)
    ensures
        url@ == session_url(params@),
{
    let mut url = String::from_str("/?window=session&tab_id=");
    url.append(params.tab_id.as_str());
    let ghost head = url@;
    match &params.session_id {
        Some(session_id) => {
            url.append("&session_id=");
            url.append(session_id.as_str());
        },
        None => {},
    }
    assert(url@ =~= head + query_part("&session_id="@, params@.session_id));
    let ghost with_session = url@;
    match &params.project_path {
        Some(project_path) => {
            let encoded = percent_encode(project_path.as_str());
            url.append("&project_path=");
            url.append(encoded.as_str());
        },
        None => {},
    }
    assert(url@ =~= with_session + query_part(
        "&project_path="@,
        encoded_path(params@.project_path),
    ));
    let ghost with_path = url@;
    match &params.engine {
        Some(engine) => {
            url.append("&engine=");
            url.append(engine.as_str());
        },
        None => {},
    }
    assert(url@ =~= with_path + query_part("&engine="@, params@.engine));
    url
}

/// The window to ask of the host for a request.
pub fn new_session_window(params: &CreateSessionWindowParams) -> (window: NewWindow)
    ensures
        window@ == session_window(params@),
{
    NewWindow {
        label: session_window_label(params.tab_id.as_str()),
        url: session_window_url(params),
        title: params.title.clone(),
        width: SESSION_WINDOW_WIDTH,
        height: SESSION_WINDOW_HEIGHT,
        min_width: SESSION_WINDOW_MIN_WIDTH,
        min_height: SESSION_WINDOW_MIN_HEIGHT,
        resizable: true,
        maximizable: true,
        minimizable: true,
        visible: true,
        decorations: false,
        centered: true,
    }
}

} // verus!
