use vstd::prelude::*;
use crate::handle::{native_window_id, spec_native_window_id};
use crate::request::{CaptureError, CaptureJob};

verus! {

/// What the capture facility reports of one top-level OS window: its numeric
/// identifier and its current title, each absent where it could not be read.
#[derive(Clone, Debug)]
pub struct WindowInfo {
    pub id: Option<u32>,
    pub title: Option<String>,
}

/// A title snapshot, as characters.
pub open spec fn opt_chars(title: Option<String>) -> Option<Seq<char>> {
    match title {
        Some(t) => Some(t@),
        None => None,
    }
}

/// The window's title, as characters.
pub open spec fn title_of(w: WindowInfo) -> Option<Seq<char>> {
    opt_chars(w.title)
}

/// The window's identifier could be read and equals `target`.
pub open spec fn id_match(w: WindowInfo, target: u32) -> bool {
    w.id == Some(target)
}

/// The window's title could be read and equals `title` character for character.
pub open spec fn title_match(w: WindowInfo, title: Seq<char>) -> bool {
    title_of(w) == Some(title)
}

/// Some window of the enumeration carries the identifier `target`.
pub open spec fn has_id_match(ws: Seq<WindowInfo>, target: u32) -> bool {
    exists|j: int| 0 <= j < ws.len() && #[trigger] id_match(ws[j], target)
}

/// Some window of the enumeration carries the title `title`.
pub open spec fn has_title_match(ws: Seq<WindowInfo>, title: Seq<char>) -> bool {
    exists|j: int| 0 <= j < ws.len() && #[trigger] title_match(ws[j], title)
}

/// `i` is the first window that carries the identifier `target`.
pub open spec fn first_id_match(ws: Seq<WindowInfo>, target: u32, i: int) -> bool {
    &&& 0 <= i < ws.len()
    &&& id_match(ws[i], target)
    &&& forall|j: int| 0 <= j < i ==> !#[trigger] id_match(ws[j], target)
}

/// `i` is the first window that carries the title `title`.
pub open spec fn first_title_match(ws: Seq<WindowInfo>, title: Seq<char>, i: int) -> bool {
    &&& 0 <= i < ws.len()
    &&& title_match(ws[i], title)
    &&& forall|j: int| 0 <= j < i ==> !#[trigger] title_match(ws[j], title)
}

/// The window is found by its numeric identifier.
pub open spec fn found_by_id(ws: Seq<WindowInfo>, target: Option<u32>) -> bool {
    target is Some && has_id_match(ws, target->0)
}

/// The window is found by the title fallback: no identifier matched and the
/// title snapshot does.
pub open spec fn found_by_title(
    ws: Seq<WindowInfo>,
    target: Option<u32>,
    title: Option<Seq<char>>,
) -> bool {
    !found_by_id(ws, target) && title is Some && has_title_match(ws, title->0)
}

/// The window that the locator picks out of an enumeration: the first whose
/// identifier equals the target, else the first whose title equals the
/// snapshot, else none.
pub open spec fn located(
    ws: Seq<WindowInfo>,
    target: Option<u32>,
    title: Option<Seq<char>>,
    r: Option<usize>,
) -> bool {
    match r {
        Some(i) => if found_by_id(ws, target) {
            first_id_match(ws, target->0, i as int)
        } else {
            found_by_title(ws, target, title) && first_title_match(ws, title->0, i as int)
        },
        None => !found_by_id(ws, target) && !found_by_title(ws, target, title),
    }
}

fn find_by_id(windows: &Vec<WindowInfo>, target: u32) -> (r: Option<usize>)
    ensures
        match r {
            Some(i) => first_id_match(windows@, target, i as int),
            None => !has_id_match(windows@, target),
        },
{
    let mut i: usize = 0;
    while i < windows.len()
        invariant
            i <= windows@.len(),
            forall|j: int| 0 <= j < i ==> !#[trigger] id_match(windows@[j], target),
        decreases windows@.len() - i,
    {
        if windows[i].id == Some(target) {
            return Some(i);
        }
        i = i + 1;
    }
    None
}

fn find_by_title(windows: &Vec<WindowInfo>, title: &String) -> (r: Option<usize>)
    ensures
        match r {
            Some(i) => first_title_match(windows@, title@, i as int),
            None => !has_title_match(windows@, title@),
        },
{
    let mut i: usize = 0;
    while i < windows.len()
        invariant
            i <= windows@.len(),
            forall|j: int| 0 <= j < i ==> !#[trigger] title_match(windows@[j], title@),
        decreases windows@.len() - i,
    {
        let found = match &windows[i].title {
            Some(t) => t.eq(title),
            None => false,
        };
        if found {
            return Some(i);
        }
        i = i + 1;
    }
    None
}

/// Picks the OS window that a request designates out of an enumeration of
/// all top-level windows: the first whose numeric identifier equals
/// `target`, else the first whose title equals `title` exactly.
pub fn locate_window(
    windows: &Vec<WindowInfo>,
    target: Option<u32>,
    title: &Option<String>,
) -> (r: Option<usize>)
    ensures
        located(windows@, target, opt_chars(*title), r),
{
    if let Some(id) = target {
        if let Some(i) = find_by_id(windows, id) {
            return Some(i);
        }
    }
    if let Some(t) = title {
        if let Some(i) = find_by_title(windows, t) {
            return Some(i);
        }
    }
    None
}

/// Decides which enumerated OS window a capture job reads, given what the
/// capture facility's enumeration returned: its failure message is passed on
/// as an enumeration failure; otherwise the window is located from the job's
/// handle and title snapshot, and a miss is reported as no matching window.
pub fn pick_window(job: &CaptureJob, windows: &Result<Vec<WindowInfo>, String>) -> (r: Result<
    usize,
    CaptureError,
>)
    ensures
        match windows {
            Err(m) => r == Err::<usize, CaptureError>(CaptureError::EnumerationFailed(*m)),
            Ok(ws) => match r {
                Ok(i) => located(
                    ws@,
                    spec_native_window_id(job.handle),
                    opt_chars(job.title),
                    Some(i),
                ),
                Err(e) => e is NoMatchingWindow && located(
                    ws@,
                    spec_native_window_id(job.handle),
                    opt_chars(job.title),
                    None,
                ),
            },
        },
{
    match windows {
        Err(m) => Err(CaptureError::EnumerationFailed(m.clone())),
        Ok(ws) => {
            let target = native_window_id(&job.handle);
            match locate_window(ws, target, &job.title) {
                Some(i) => Ok(i),
                None => Err(CaptureError::NoMatchingWindow),
            }
        },
    }
}

} // verus!
