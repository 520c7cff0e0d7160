//! Runtime loading of dynamic libraries.
//!
//! The library models the three entities of dynamic loading — a loaded
//! library handle, the symbols resolved from it, and their error values —
//! and verifies every decision made about them: how a platform open or
//! resolve outcome is turned into a handle or an error, how the platform
//! diagnostic is carried, and that the close action of a library is yielded
//! exactly once. The platform calls themselves (open, resolve, close,
//! last-error retrieval) are performed by an unverified driver around this
//! library, which hands their raw outcomes in as plain values.

use vstd::prelude::*;

pub use crate::loader::diagnostic_text;
pub use crate::loader::lemma_diagnostic_text_nonempty;
pub use crate::loader::load_library;
pub use crate::loader::load_symbol;
pub use crate::snek::lemma_release_one_shot;
pub use crate::snek::release_action;
pub use crate::snek::Snek;
pub use crate::symbol::Symbol;
pub use crate::winerror::hresult_from_win32;
pub use crate::winerror::last_error_hr;
pub use crate::winerror::last_error_string;
pub use crate::winerror::win32_to_hresult;
pub use crate::winerror::FACILITY_WIN32;
pub use crate::wrapper::Wrapper;
pub use crate::wrapper::WrapperBuilder;

mod loader;
mod snek;
mod symbol;
mod winerror;
mod wrapper;

verus! {

/// Why loading a library or a symbol failed. Either kind carries the
/// human-readable diagnostic that the platform's own error-reporting
/// mechanism gave at the moment of failure.
#[derive(Debug)]
pub enum Error {
    /// The platform could not open the library.
    LibraryLoadError(String),
    /// The platform could not resolve the symbol in an open library.
    SymbolLoadError(String),
}

} // verus!
