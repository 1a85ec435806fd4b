//! The quick-capture popup: what a typed line becomes.
use vstd::prelude::*;
use vstd::string::*;
use crate::text::{is_white_space, lemma_trimmed_idempotent, lemma_trimmed_shape, trim, trimmed};

verus! {

/// The widget name that marks the capture popup, so that a second request
/// re-focuses the open one.
pub const CAPTURE_WINDOW_NAME: &'static str = "doo-capture";

/// What pressing Enter on `raw` saves: the text without leading and
/// trailing white space, or nothing when that is empty.
pub open spec fn capture_of(raw: Seq<char>) -> Option<Seq<char>> {
    if trimmed(raw).len() == 0 {
        None
    } else {
        Some(trimmed(raw))
    }
}

/// The task text that Enter saves from the entry's text `raw`, or `None`
/// when there is nothing but white space (then nothing is saved).
pub fn captured_text(raw: &str) -> (task: Option<String>)
    ensures
        match task {
            Some(t) => capture_of(raw@) == Some(t@),
            None => capture_of(raw@) is None,
        },
{
    let t = trim(raw);
    if t.is_empty() {
        None
    } else {
        Some(String::from_str(t))
    }
}

/// What Enter saves from the entry text `raw` and the screenshot pasted into
/// the popup (the path it was saved to), if any. With a screenshot, the task
/// is saved with the trimmed text as its (optional) note, even an empty one;
/// without one, only a text that is not blank is saved.
pub open spec fn task_of_capture(raw: Seq<char>, image: Option<Seq<char>>) -> Option<
    (Seq<char>, Option<Seq<char>>),
> {
    match image {
        Some(path) => Some((trimmed(raw), Some(path))),
        None => match capture_of(raw) {
            Some(text) => Some((text, None)),
            None => None,
        },
    }
}

/// The task that Enter saves, as its text and its screenshot path, from the
/// entry's text `raw` and the path of the pasted screenshot, if any; `None`
/// when nothing is saved.
pub fn captured_task(raw: &str, image_path: Option<&str>) -> (task: Option<(String, Option<String>)>)
    ensures
        match task {
            Some((text, path)) => task_of_capture(
                raw@,
                match image_path {
                    Some(p) => Some(p@),
                    None => None,
                },
            ) == Some(
                (
                    text@,
                    match path {
                        Some(p) => Some(p@),
                        None => None,
                    },
                ),
            ),
            None => task_of_capture(
                raw@,
                match image_path {
                    Some(p) => Some(p@),
                    None => None,
                },
            ) is None,
        },
{
    match image_path {
        Some(path) => Some((String::from_str(trim(raw)), Some(String::from_str(path)))),
        None => match captured_text(raw) {
            Some(text) => Some((text, None)),
            None => None,
        },
    }
}

/// The file name under which a pasted screenshot is stored, from a time
/// stamp that tells it apart.
pub fn screenshot_file_name(stamp: &str) -> (name: String)
    ensures
        name@ == "screenshot-"@ + stamp@ + ".png"@,
{
    String::from_str("screenshot-").concat(stamp).concat(".png")
}

/// Enter saves nothing exactly when the entry holds nothing but white
/// space; otherwise it saves the typed text from its first to its last
/// character that is not white space, whatever its length, and only white
/// space is left out around it.
pub proof fn capture_saves_the_typed_text(raw: Seq<char>)
    ensures
        capture_of(raw) is None <==> forall|k: int|
            0 <= k < raw.len() ==> is_white_space(#[trigger] raw[k]),
        trimmed(raw).len() > 0 ==> capture_of(raw) == Some(trimmed(raw)),
        capture_of(raw) matches Some(t) ==> exists|i: int, j: int|
            {
                &&& 0 <= i < j <= raw.len()
                &&& t == raw.subrange(i, j)
                &&& !is_white_space(raw[i])
                &&& !is_white_space(raw[j - 1])
                &&& forall|k: int| 0 <= k < i ==> is_white_space(#[trigger] raw[k])
                &&& forall|k: int| j <= k < raw.len() ==> is_white_space(#[trigger] raw[k])
            },
{
    lemma_trimmed_shape(raw);
}

/// A pasted screenshot is always attached: with a screenshot, Enter saves a
/// task that carries exactly that screenshot's path, whatever the note; the
/// note is the typed text as a capture without screenshot would save it, or
/// empty when nothing but white space was typed.
pub proof fn pasted_screenshot_is_attached(raw: Seq<char>, path: Seq<char>)
    ensures
        task_of_capture(raw, Some(path)) matches Some((note, Some(attached))) && attached == path
            && (note.len() == 0 <==> capture_of(raw) is None) && (note.len() > 0 ==> capture_of(
            raw,
        ) == Some(note)),
{
}

/// Without a screenshot, Enter saves a task exactly when a capture of the
/// text saves one, with that text and no screenshot.
pub proof fn capture_without_screenshot_has_none(raw: Seq<char>)
    ensures
        task_of_capture(raw, None) is None <==> capture_of(raw) is None,
        task_of_capture(raw, None) matches Some((note, attached)) ==> attached is None && capture_of(
            raw,
        ) == Some(note),
{
}

/// Capturing is stable: what a capture saves, captured again, saves the
/// same text.
pub proof fn capture_is_idempotent(raw: Seq<char>)
    ensures
        capture_of(raw) matches Some(t) ==> capture_of(t) == Some(t),
{
    lemma_trimmed_idempotent(raw);
}

/// A capture never saves an empty text, nor one that starts or ends with
/// white space.
pub proof fn capture_is_trimmed(raw: Seq<char>)
    ensures
        capture_of(raw) matches Some(t) ==> t.len() > 0 && trimmed(t) == t,
{
    lemma_trimmed_idempotent(raw);
}

} // verus!
