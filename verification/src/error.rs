//! The errors of the overlay.
use vstd::prelude::*;

verus! {

/// Why an overlay could not be set up.
#[derive(Debug)]
pub enum Win32Error {
    /// The overlay window or its thread could not be created; the text says
    /// what went wrong.
    HookInstallFailed(String),
}

impl Win32Error {
    /// The text of the error.
    pub open spec fn text(self) -> Seq<char> {
        match self {
            Win32Error::HookInstallFailed(text) => text@,
        }
    }

    /// The text of an error is the text that it holds.
    pub proof fn law_text(text: String)
        ensures
            Win32Error::HookInstallFailed(text).text() == text@,
    {
    }

    /// An error with the given text.
    pub(crate) fn hook_install_failed(text: &str) -> (e: Win32Error)
        ensures
            e.text() == text@,
            e matches Win32Error::HookInstallFailed(t) && t@ == text@,
    {
        Win32Error::HookInstallFailed(text.to_string())
    }
}

} // verus!
