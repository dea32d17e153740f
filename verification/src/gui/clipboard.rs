//! Copying and pasting positions as FEN text: reading pasted text as a
//! position, and the notice shown for each outcome. The clipboard itself is
//! the caller's.

use vstd::prelude::*;
use crate::text::push_str;
use crate::xiangqi::{fen_position, Board};

verus! {

/// How a clipboard copy or paste ended.
#[derive(Debug, Clone, Copy, PartialEq, Eq, Structural)]
pub enum ClipboardOutcome {
    /// The FEN was copied.
    Copied,
    /// Writing to the clipboard failed.
    CopyFailed,
    /// No clipboard could be opened.
    Unavailable,
    /// A position was loaded from the pasted text.
    Loaded,
    /// The pasted text is not a position.
    InvalidFen,
    /// The clipboard holds no text.
    NoText,
}

/// The notice for an outcome; a copy names the copied FEN.
pub open spec fn notice_text(outcome: ClipboardOutcome, fen: Seq<char>) -> Seq<char> {
    match outcome {
        ClipboardOutcome::Copied => "已复制FEN: "@ + fen,
        ClipboardOutcome::CopyFailed => "复制失败"@,
        ClipboardOutcome::Unavailable => "剪贴板不可用"@,
        ClipboardOutcome::Loaded => "已从剪贴板加载局面"@,
        ClipboardOutcome::InvalidFen => "无效FEN"@,
        ClipboardOutcome::NoText => "剪贴板无文本"@,
    }
}

/// The notice shown after a copy or paste (see [`notice_text`]).
pub fn notice(outcome: ClipboardOutcome, fen: &str) -> (s: String)
    ensures
        s@ == notice_text(outcome, fen@),
{
    let mut s = String::new();
    match outcome {
        ClipboardOutcome::Copied => {
            push_str(&mut s, "已复制FEN: ");
            push_str(&mut s, fen);
        },
        ClipboardOutcome::CopyFailed => push_str(&mut s, "复制失败"),
        ClipboardOutcome::Unavailable => push_str(&mut s, "剪贴板不可用"),
        ClipboardOutcome::Loaded => push_str(&mut s, "已从剪贴板加载局面"),
        ClipboardOutcome::InvalidFen => push_str(&mut s, "无效FEN"),
        ClipboardOutcome::NoText => push_str(&mut s, "剪贴板无文本"),
    }
    s
}

/// Reads pasted text as a position: the position and `Loaded` when the
/// text is a FEN, else nothing and `InvalidFen`.
pub fn paste_position(text: &str) -> (r: (Option<Board>, ClipboardOutcome))
    ensures
        match fen_position(text@) {
            Some((cells, side)) => r.0 matches Some(b) && b.wf() && b.squares@ == cells && b.side
                == side && r.1 == ClipboardOutcome::Loaded,
            None => r.0 is None && r.1 == ClipboardOutcome::InvalidFen,
        },
{
    match Board::from_fen(text) {
        Some(b) => (Some(b), ClipboardOutcome::Loaded),
        None => (None, ClipboardOutcome::InvalidFen),
    }
}

} // verus!
