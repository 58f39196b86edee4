use vstd::prelude::*;

verus! {

#[derive(Debug, Clone)]
pub enum ClipboardError {
    Clipboard(String),
}

#[derive(Debug, Clone)]
pub enum PasteError {
    Paste(String),
}

/// Failures while delivering the final text.
#[derive(Debug, Clone)]
pub enum OutputError {
    Clipboard(ClipboardError),
    Paste(PasteError),
}

/// How the final text is delivered.
#[derive(Debug, Clone, Copy, PartialEq, Eq, Structural)]
pub struct OutputPlan {
    /// Simulate a paste into the foreground application.
    pub paste: bool,
    /// Save the clipboard first and put it back after the paste.
    pub restore_clipboard: bool,
}

/// The text is always put on the clipboard. It is pasted only while the
/// application that was in front when recording began is still in front (or
/// when that application is not known); the clipboard is restored only around
/// a paste, and only when the configuration asks for it.
pub fn output_plan(original_pid: Option<i32>, current_pid: Option<i32>, restore_clipboard: bool) -> (r:
    OutputPlan)
    ensures
        r.paste == match original_pid {
            Some(p) => current_pid == Some(p),
            None => true,
        },
        r.restore_clipboard == (r.paste && restore_clipboard),
{
    let paste = match original_pid {
        Some(p) => match current_pid {
            Some(c) => c == p,
            None => false,
        },
        None => true,
    };
    OutputPlan { paste, restore_clipboard: paste && restore_clipboard }
}

} // verus!
