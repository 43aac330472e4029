//! What the user is told when the editor a comment was handed to comes back.

use vstd::prelude::*;

use crate::strings::{concat2, concat3, decimal, number};

verus! {

/// Whether the editor returned success; its file is read in either case.
#[derive(Debug, Clone, Copy, PartialEq, Eq, Structural)]
pub enum EditorExit {
    /// The editor completed normally.
    Success,
    /// The editor stopped with a non-zero code. The text remains usable.
    Failed(Option<i32>),
}

/// A signed number in decimal.
pub open spec fn signed(n: int) -> Seq<char> {
    if n < 0 { "-"@ + decimal((-n) as nat) } else { decimal(n as nat) }
}

fn signed_number(n: i32) -> (out: String)
    ensures
        out@ == signed(n as int),
{
    if n < 0 {
        let size: i64 = -(n as i64);
        concat2("-", number(size as u64).as_str())
    } else {
        number(n as u64)
    }
}

impl EditorExit {
    /// How an editor ended that did or did not succeed, with the code it gave if it gave one.
    #[must_use]
    pub fn from_status(success: bool, code: Option<i32>) -> (r: Self)
        ensures
            r == if success { EditorExit::Success } else { EditorExit::Failed(code) },
    {
        if success { EditorExit::Success } else { EditorExit::Failed(code) }
    }

    /// The warning an exit deserves.
    pub open spec fn complaint(self) -> Option<Seq<char>> {
        match self {
            EditorExit::Success => None,
            EditorExit::Failed(Some(code)) => Some(
                "$EDITOR exited with status "@ + signed(code as int) + "; kept its text"@,
            ),
            EditorExit::Failed(None) => Some("$EDITOR was interrupted; kept its text"@),
        }
    }

    /// A user-facing warning that does not discard the file's contents.
    #[must_use]
    pub fn warning(&self) -> (r: Option<String>)
        ensures
            match r {
                Some(text) => self.complaint() == Some(text@),
                None => self.complaint() is None,
            },
    {
        match self {
            EditorExit::Success => None,
            EditorExit::Failed(Some(code)) => Some(
                concat3("$EDITOR exited with status ", signed_number(*code).as_str(), "; kept its text"),
            ),
            EditorExit::Failed(None) => Some("$EDITOR was interrupted; kept its text".to_owned()),
        }
    }
}

} // verus!
