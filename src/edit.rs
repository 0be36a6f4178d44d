//! What the editor does with the outcome of a call: the message it shows and
//! the change it makes to its buffer.

use vstd::prelude::*;
use vstd::string::StringExecFns;
use crate::executor::{ExecutionStatus, TextReplacement};
use crate::text::{without_nul, StringExt};

verus! {

/// A change to the editor's buffer. The text never holds a NUL character.
#[derive(Clone, Debug, PartialEq)]
pub enum BufferEdit {
    /// Replace the whole buffer.
    SetText(String),
    /// Replace the selected range.
    ReplaceSelection(String),
    /// Insert at the cursor.
    InsertAtCursor(String),
}

/// The fragments one after another.
pub open spec fn joined(v: Seq<String>) -> Seq<char>
    decreases v.len(),
{
    if v.len() == 0 {
        Seq::empty()
    } else {
        joined(v.drop_last()) + v.last()@
    }
}

/// The fragments of an insertion, concatenated in the order they were made.
pub fn join_fragments(v: &Vec<String>) -> (r: String)
    ensures
        r@ == joined(v@),
{
    let mut r = String::new();
    let mut i: usize = 0;
    while i < v.len()
        invariant
            i <= v@.len(),
            r@ == joined(v@.take(i as int)),
        decreases v@.len() - i,
    {
        assert(v@.take(i + 1).drop_last() == v@.take(i as int));
        r.append(v[i].as_str());
        i = i + 1;
    }
    assert(v@.take(v@.len() as int) == v@);
    r
}

fn strip(s: String) -> (r: String)
    ensures
        r@ == without_nul(s@),
{
    match s.remove_null_bytes() {
        Ok(t) => t,
        Err(_) => String::new(),
    }
}

/// The buffer change for a replacement, given whether text is selected:
/// NUL characters are dropped, insertions are joined and replace the
/// selection or go in at the cursor, and a selection replacement with
/// nothing selected changes nothing.
pub fn plan_edit(r: TextReplacement, has_selection: bool) -> (e: Option<BufferEdit>)
    ensures
        match r {
            TextReplacement::Full(t) => e matches Some(BufferEdit::SetText(u)) && u@ == without_nul(
                t@,
            ),
            TextReplacement::Selection(t) => if has_selection {
                e matches Some(BufferEdit::ReplaceSelection(u)) && u@ == without_nul(t@)
            } else {
                e is None
            },
            TextReplacement::Insert(v) => if has_selection {
                e matches Some(BufferEdit::ReplaceSelection(u)) && u@ == without_nul(joined(v@))
            } else {
                e matches Some(BufferEdit::InsertAtCursor(u)) && u@ == without_nul(joined(v@))
            },
            TextReplacement::Unchanged => e is None,
        },
{
    match r {
        TextReplacement::Full(t) => Some(BufferEdit::SetText(strip(t))),
        TextReplacement::Selection(t) => if has_selection {
            Some(BufferEdit::ReplaceSelection(strip(t)))
        } else {
            None
        },
        TextReplacement::Insert(v) => {
            let text = strip(join_fragments(&v));
            if has_selection {
                Some(BufferEdit::ReplaceSelection(text))
            } else {
                Some(BufferEdit::InsertAtCursor(text))
            }
        },
        TextReplacement::Unchanged => None,
    }
}

/// The message shown after a call: an error the script posted, marked as
/// one, else the info it posted, else none.
pub fn status_notification(status: &ExecutionStatus) -> (r: Option<String>)
    ensures
        match (status.error, status.info) {
            (Some(e), _) => r matches Some(m) && m@
                == "<span foreground=\"red\" weight=\"bold\">ERROR:</span> "@ + e@,
            (None, Some(i)) => r matches Some(m) && m@ == i@,
            (None, None) => r is None,
        },
{
    match status.error() {
        Some(e) => {
            let mut m = String::from_str("<span foreground=\"red\" weight=\"bold\">ERROR:</span> ");
            m.append(e.as_str());
            Some(m)
        },
        None => match status.info() {
            Some(i) => Some(i.clone()),
            None => None,
        },
    }
}

} // verus!
