//! The two remote-invocable commands, written over the host's window lookup
//! and per-window operations, which are handed in as closures.
use vstd::prelude::*;

verus! {

/// The text that names a window label that the host does not know.
pub open spec fn not_found_text(label: Seq<char>) -> Seq<char> {
    "Webview window not found: "@ + label
}

/// Builds the error message for a label that resolves to no window.
pub fn window_not_found(label: &str) -> (r: String)
    ensures
        r@ == not_found_text(label@),
{
    String::from_str("Webview window not found: ").concat(label)
}

/// Looks the window up by `label` with `find_window` and, when it exists, asks
/// `read_url` for its current URL.
///
/// A missing window gives the not-found message; otherwise the host's answer
/// is returned as it came, URL or error text alike.
pub fn webview_get_url<W, F, U>(label: String, find_window: F, read_url: U) -> (r: Result<
    String,
    String,
>) where F: FnOnce(String) -> Option<W>, U: FnOnce(W) -> Result<String, String>
    requires
        find_window.requires((label,)),
        forall|w: W| find_window.ensures((label,), Some(w)) ==> read_url.requires((w,)),
    ensures
        exists|found: Option<W>|
            #[trigger] find_window.ensures((label,), found) && match found {
                None => r is Err && r->Err_0@ == not_found_text(label@),
                Some(w) => read_url.ensures((w,), r),
            },
{
    let window = find_window(label.clone());
    match window {
        None => Err(window_not_found(label.as_str())),
        Some(w) => read_url(w),
    }
}

/// Looks the window up by `label` with `find_window` and, when it exists,
/// hands `script` unchanged to `eval_script` to run inside it.
///
/// A missing window gives the not-found message; otherwise the host's answer
/// is returned as it came, success or error text alike.
pub fn webview_eval<W, F, E>(label: String, script: String, find_window: F, eval_script: E) -> (r:
    Result<(), String>) where F: FnOnce(String) -> Option<W>, E: FnOnce(W, String) -> Result<(), String>
    requires
        find_window.requires((label,)),
        forall|w: W| find_window.ensures((label,), Some(w)) ==> eval_script.requires((w, script)),
    ensures
        exists|found: Option<W>|
            #[trigger] find_window.ensures((label,), found) && match found {
                None => r is Err && r->Err_0@ == not_found_text(label@),
                Some(w) => eval_script.ensures((w, script), r),
            },
{
    let window = find_window(label.clone());
    match window {
        None => Err(window_not_found(label.as_str())),
        Some(w) => eval_script(w, script),
    }
}

/// The not-found message holds the literal text `Webview window not found`
/// and the label exactly as it was given.
pub proof fn not_found_text_names_label(label: Seq<char>)
    ensures
        exists|i: int|
            0 <= i && i + 24 <= not_found_text(label).len() && #[trigger] not_found_text(
                label,
            ).subrange(i, i + 24) == "Webview window not found"@,
        exists|j: int|
            0 <= j && j + label.len() <= not_found_text(label).len() && #[trigger] not_found_text(
                label,
            ).subrange(j, j + label.len()) == label,
{
    reveal_strlit("Webview window not found: ");
    reveal_strlit("Webview window not found");
    let t = not_found_text(label);
    assert(t.subrange(0int, 0int + 24) =~= "Webview window not found"@);
    assert(t.subrange(26, 26 + label.len() as int) =~= label);
}

} // verus!
