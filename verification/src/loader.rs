//! The platform loader's decisions: a platform open or resolve call hands
//! back an address-sized value, with the zero sentinel meaning failure, plus
//! the diagnostic captured from the platform's last-error slot at the moment
//! of failure. These functions turn such an outcome into a handle or an
//! error value.

use vstd::prelude::*;
use vstd::string::StringExecFns;

use crate::Error;

verus! {

/// The diagnostic text a failed load or resolve carries: the platform's own
/// message when one was produced, and `"Unknown Error"` when the platform's
/// formatting facility yielded nothing.
pub open spec fn diagnostic_text(diagnostic: Option<String>) -> Seq<char> {
    match diagnostic {
        Some(d) => d@,
        None => "Unknown Error"@,
    }
}

/// A failed load or resolve never carries an empty diagnostic, as long as
/// the platform's own message — when it produced one — was non-empty: the
/// fallback text is never empty.
pub proof fn lemma_diagnostic_text_nonempty(diagnostic: Option<String>)
    requires
        diagnostic matches Some(d) ==> d@.len() > 0,
    ensures
        diagnostic_text(diagnostic).len() > 0,
{
    reveal_strlit("Unknown Error");
}

/// Executable form of [`diagnostic_text`].
fn diagnostic_message(diagnostic: Option<String>) -> (m: String)
    ensures
        m@ == diagnostic_text(diagnostic),
{
    match diagnostic {
        Some(d) => d,
        None => String::from_str("Unknown Error"),
    }
}

/// Turns the outcome of the platform's open-by-path call into a library
/// handle or a load error: a nonzero value is the opaque handle of the
/// loaded library, and the zero sentinel is a failure carrying the platform
/// diagnostic.
pub fn load_library(handle: usize, diagnostic: Option<String>) -> (r: Result<usize, Error>)
    ensures
        handle != 0 ==> r == Ok::<usize, Error>(handle),
        handle == 0 ==> (r matches Err(Error::LibraryLoadError(m)) && m@ == diagnostic_text(
            diagnostic,
        )),
{
    if handle != 0 {
        Ok(handle)
    } else {
        Err(Error::LibraryLoadError(diagnostic_message(diagnostic)))
    }
}

/// Turns the outcome of the platform's resolve-by-name call into a symbol
/// address or a resolve error: a nonzero value is the opaque address of the
/// exported symbol, and the zero sentinel is a failure carrying the platform
/// diagnostic.
pub fn load_symbol(address: usize, diagnostic: Option<String>) -> (r: Result<usize, Error>)
    ensures
        address != 0 ==> r == Ok::<usize, Error>(address),
        address == 0 ==> (r matches Err(Error::SymbolLoadError(m)) && m@ == diagnostic_text(
            diagnostic,
        )),
{
    if address != 0 {
        Ok(address)
    } else {
        Err(Error::SymbolLoadError(diagnostic_message(diagnostic)))
    }
}

} // verus!
