//! Window labels: how a session window is named and told apart from the
//! host's other windows.

use vstd::prelude::*;

verus! {

/// What every session window's label starts with.
pub const SESSION_WINDOW_PREFIX: &'static str = "session-window-";

/// The characters of [`SESSION_WINDOW_PREFIX`].
pub open spec fn session_prefix() -> Seq<char> {
    "session-window-"@
}

/// The label of the session window that hosts the tab `tab_id`: the prefix,
/// then the tab identifier as it stands.
pub open spec fn session_label(tab_id: Seq<char>) -> Seq<char> {
    session_prefix() + tab_id
}

/// Whether `label` names a session window: whether it starts with the prefix.
pub open spec fn is_session_label(label: Seq<char>) -> bool {
    session_prefix().is_prefix_of(label)
}

/// The session windows among `windows`, in the order in which they stand there.
pub open spec fn session_labels(windows: Seq<Seq<char>>) -> Seq<Seq<char>> {
    windows.filter(|label: Seq<char>| is_session_label(label))
}

/// The label under which the host knows the session window of a tab.
pub fn session_window_label(tab_id: &str) -> (label: String)
    ensures
        label@ == session_label(tab_id@),
{
    let mut label = String::from_str(SESSION_WINDOW_PREFIX);
    label.append(tab_id);
    label
}

/// Whether a window of the host is a session window, going by its label.
pub fn is_session_window(label: &str) -> (found: bool)
    ensures
        found == is_session_label(label@),
{
    let prefix: &str = SESSION_WINDOW_PREFIX;
    let wanted: usize = prefix.unicode_len();
    if label.unicode_len() < wanted {
        return false;
    }
    let mut i: usize = 0;
    while i < wanted
        invariant
            i <= wanted,
            wanted == prefix@.len(),
            wanted <= label@.len(),
            prefix@ == session_prefix(),
            forall|k: int| 0 <= k < i ==> label@[k] == prefix@[k],
        decreases wanted - i,
    {
        if label.get_char(i) != prefix.get_char(i) {
            assert(label@.subrange(0, wanted as int)[i as int] != prefix@[i as int]);
            return false;
        }
        i += 1;
    }
    assert(prefix@ =~= label@.subrange(0, wanted as int));
    true
}

/// Lists the host's open session windows.
///
/// `windows` holds the labels of all open windows. The answer holds those that
/// carry the session prefix, each as often and in the order in which the host
/// gave it, and no other label. It never fails.
pub fn list_session_windows(windows: &Vec<String>) -> (listed: Result<Vec<String>, String>)
    ensures
        listed is Ok,
        listed->Ok_0.deep_view() == session_labels(windows.deep_view()),
        forall|i: int|
            0 <= i < listed->Ok_0.len() ==> is_session_label(#[trigger] listed->Ok_0[i]@),
        forall|label: Seq<char>|
            listed->Ok_0.deep_view().contains(label) <==> windows.deep_view().contains(label)
                && is_session_label(label),
{
    let ghost keep = |label: Seq<char>| is_session_label(label);
    let mut found: Vec<String> = Vec::new();
    let mut i: usize = 0;
    while i < windows.len()
        invariant
            i <= windows.len(),
            keep == (|label: Seq<char>| is_session_label(label)),
            found.deep_view() == windows.deep_view().take(i as int).filter(keep),
        decreases windows.len() - i,
    {
        let ghost seen = windows.deep_view().take(i as int);
        let ghost kept = found.deep_view();
        proof {
            assert(windows.deep_view().take(i + 1) =~= seen.push(windows[i as int]@));
            seen.lemma_filter_push(windows[i as int]@, keep);
        }
        if is_session_window(windows[i].as_str()) {
            found.push(windows[i].clone());
            assert(found.deep_view() =~= kept.push(windows[i as int]@));
        }
        i += 1;
    }
    proof {
        assert(windows.deep_view().take(i as int) =~= windows.deep_view());
        lemma_session_labels_are_the_session_windows(windows.deep_view());
        assert forall|k: int| 0 <= k < found.len() implies is_session_label(
            #[trigger] found[k]@,
        ) by {
            assert(found[k]@ == found.deep_view()[k]);
        }
    }
    Ok(found)
}

/// The listing holds session windows only, and every open session window is
/// in it, whatever other windows the host has open.
pub proof fn lemma_session_labels_are_the_session_windows(windows: Seq<Seq<char>>)
    ensures
        forall|i: int|
            0 <= i < session_labels(windows).len() ==> is_session_label(
                #[trigger] session_labels(windows)[i],
            ),
        forall|label: Seq<char>|
            session_labels(windows).contains(label) <==> windows.contains(label)
                && is_session_label(label),
        session_labels(windows).len() <= windows.len(),
{
    let keep = |label: Seq<char>| is_session_label(label);
    let listed = windows.filter(keep);
    windows.lemma_filter_len(keep);
    assert forall|i: int| 0 <= i < listed.len() implies is_session_label(
        #[trigger] listed[i],
    ) by {
        windows.lemma_filter_pred(keep, i);
    }
    assert forall|label: Seq<char>| listed.contains(label) <==> windows.contains(label)
        && is_session_label(label) by {
        if listed.contains(label) {
            windows.lemma_filter_contains_rev(keep, label);
        }
        if windows.contains(label) && is_session_label(label) {
            let i = choose|i: int| 0 <= i < windows.len() && windows[i] == label;
            windows.lemma_filter_contains(keep, i);
        }
    }
}

/// The label made for a tab is a session window's label.
pub proof fn lemma_session_label_is_session_window(tab_id: Seq<char>)
    ensures
        is_session_label(session_label(tab_id)),
{
    assert(session_label(tab_id).subrange(0, session_prefix().len() as int) =~= session_prefix());
}

/// Two tabs share a window label only if they are the same tab.
pub proof fn lemma_session_label_is_injective(first: Seq<char>, second: Seq<char>)
    requires
        session_label(first) == session_label(second),
    ensures
        first == second,
{
    let skip = session_prefix().len() as int;
    assert(first =~= session_label(first).subrange(skip, session_label(first).len() as int));
    assert(second =~= session_label(second).subrange(skip, session_label(second).len() as int));
}

} // verus!
