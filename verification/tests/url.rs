use session_windows::{session_window_url, CreateSessionWindowParams};

fn request(
    tab_id: &str,
    session_id: Option<&str>,
    project_path: Option<&str>,
    engine: Option<&str>,
) -> CreateSessionWindowParams {
    CreateSessionWindowParams {
        tab_id: String::from(tab_id),
        session_id: session_id.map(String::from),
        project_path: project_path.map(String::from),
        title: String::from("Session"),
        engine: engine.map(String::from),
    }
}

#[test]
fn url_of_bare_request_names_the_tab_only() {
    assert_eq!(
        session_window_url(&request("t1", None, None, None)),
        "/?window=session&tab_id=t1"
    );
}

#[test]
fn url_of_full_request_holds_every_parameter_in_order() {
    assert_eq!(
        session_window_url(&request("t1", Some("s-9"), Some("/home/me/proj"), Some("codex"))),
        "/?window=session&tab_id=t1&session_id=s-9&project_path=%2Fhome%2Fme%2Fproj&engine=codex"
    );
}

#[test]
fn url_holds_session_id_only_when_given() {
    assert_eq!(
        session_window_url(&request("t", Some("abc"), None, None)),
        "/?window=session&tab_id=t&session_id=abc"
    );
}

#[test]
fn url_holds_project_path_only_when_given() {
    assert_eq!(
        session_window_url(&request("t", None, Some("proj"), None)),
        "/?window=session&tab_id=t&project_path=proj"
    );
}

#[test]
fn url_holds_engine_only_when_given() {
    assert_eq!(
        session_window_url(&request("t", None, None, Some("codex"))),
        "/?window=session&tab_id=t&engine=codex"
    );
}

#[test]
fn url_percent_encodes_reserved_characters_of_the_path() {
    assert_eq!(
        session_window_url(&request("t", None, Some("C:\\Users\\me\\my project&x=1?#"), None)),
        "/?window=session&tab_id=t&project_path=C%3A%5CUsers%5Cme%5Cmy%20project%26x%3D1%3F%23"
    );
}

#[test]
fn url_percent_encodes_the_path_byte_by_byte() {
    assert_eq!(
        session_window_url(&request("t", None, Some("≡/ä"), None)),
        "/?window=session&tab_id=t&project_path=%E2%89%A1%2F%C3%A4"
    );
    assert_eq!(
        session_window_url(&request("t", None, Some("\0%"), None)),
        "/?window=session&tab_id=t&project_path=%00%25"
    );
}

#[test]
fn url_leaves_unreserved_characters_of_the_path() {
    assert_eq!(
        session_window_url(&request("t", None, Some("AZaz09-._~"), None)),
        "/?window=session&tab_id=t&project_path=AZaz09-._~"
    );
}

#[test]
fn url_of_empty_values_keeps_their_names() {
    assert_eq!(
        session_window_url(&request("", Some(""), Some(""), Some(""))),
        "/?window=session&tab_id=&session_id=&project_path=&engine="
    );
}

#[test]
fn url_takes_tab_session_and_engine_as_they_stand() {
    assert_eq!(
        session_window_url(&request("a b", Some("x&y"), None, Some("é=1"))),
        "/?window=session&tab_id=a b&session_id=x&y&engine=é=1"
    );
}

#[test]
fn url_does_not_depend_on_the_title() {
    let mut first = request("t", Some("s"), None, None);
    first.title = String::from("One");
    let mut second = request("t", Some("s"), None, None);
    second.title = String::from("Two & more");
    assert_eq!(session_window_url(&first), session_window_url(&second));
}
