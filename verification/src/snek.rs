//! The library handle: owns one loaded-library reference, resolves symbols
//! against it, and yields its close action exactly once.

use vstd::prelude::*;

use crate::loader::diagnostic_text;
use crate::loader::load_library;
use crate::loader::load_symbol;
use crate::symbol::Symbol;
use crate::Error;

verus! {

/// A loaded dynamic library. A `Snek` owns exactly one opaque platform
/// handle and is live from a successful open until its close action is
/// taken by [`Snek::release`]; the platform's close call is then issued by
/// the unverified driver, exactly once per handle.
#[derive(Debug)]
pub struct Snek {
    handle: usize,
    live: bool,
}

/// The close action a library in state `s` yields: the handle to hand to
/// the platform's close call while the library is live, and nothing once it
/// no longer is.
pub open spec fn release_action(s: Snek) -> Option<usize> {
    if s.live_spec() {
        Some(s.handle_spec())
    } else {
        None
    }
}

impl Snek {
    /// The opaque platform handle the library was opened as.
    pub closed spec fn handle_spec(&self) -> usize {
        self.handle
    }

    /// Whether the library is live: loaded, and its close action not yet
    /// taken.
    pub closed spec fn live_spec(&self) -> bool {
        self.live
    }

    /// Well-formedness: a live library holds a nonzero platform handle.
    pub open spec fn wf(&self) -> bool {
        self.live_spec() ==> self.handle_spec() != 0
    }

    /// Turns the outcome of the platform's open-by-path call into a live
    /// library handle, or into a load error carrying the platform
    /// diagnostic.
    pub fn load(handle: usize, diagnostic: Option<String>) -> (r: Result<Snek, Error>)
        ensures
            handle != 0 ==> (r matches Ok(s) && s.live_spec() && s.handle_spec() == handle
                && s.wf()),
            handle == 0 ==> (r matches Err(Error::LibraryLoadError(m)) && m@ == diagnostic_text(
                diagnostic,
            )),
    {
        match load_library(handle, diagnostic) {
            Ok(h) => Ok(Snek { handle: h, live: true }),
            Err(e) => Err(e),
        }
    }

    /// True while the library is live.
    pub fn is_live(&self) -> (r: bool)
        ensures
            r == self.live_spec(),
    {
        self.live
    }

    /// The platform handle, for the platform's resolve call.
    pub fn handle(&self) -> (h: usize)
        ensures
            h == self.handle_spec(),
    {
        self.handle
    }

    /// Turns the outcome of the platform's resolve-by-name call against this
    /// live library into a symbol, or into a resolve error carrying the
    /// platform diagnostic. A failed resolve leaves the library untouched
    /// and usable; a returned symbol is bounded by the borrow of `self`, so
    /// it cannot outlive the library it belongs to.
    pub fn symbol<'a>(&'a self, address: usize, diagnostic: Option<String>) -> (r: Result<
        Symbol<'a>,
        Error,
    >)
        requires
            self.live_spec(),
        ensures
            address != 0 ==> (r matches Ok(s) && s.address_spec() == address && s.owner_spec()
                == self.handle_spec()),
            address == 0 ==> (r matches Err(Error::SymbolLoadError(m)) && m@ == diagnostic_text(
                diagnostic,
            )),
    {
        match load_symbol(address, diagnostic) {
            Ok(a) => Ok(Symbol::new_owned(a, Ghost(self.handle_spec()))),
            Err(e) => Err(e),
        }
    }

    /// Takes the library's one close action. The first release of a live
    /// library yields the handle to close; the library is no longer live
    /// afterwards, and every further release yields nothing — no double
    /// close can be produced.
    pub fn release(&mut self) -> (r: Option<usize>)
        ensures
            r == release_action(*old(self)),
            !final(self).live_spec(),
            final(self).handle_spec() == old(self).handle_spec(),
            final(self).wf(),
    {
        let r = if self.live {
            Some(self.handle)
        } else {
            None
        };
        self.live = false;
        r
    }
}

/// Releasing a library is one-shot: a live library yields its handle as the
/// close action, and any state a release leaves behind — or any library that
/// is no longer live — yields no close action at all, so at most one close
/// of the same library can ever be produced.
pub proof fn lemma_release_one_shot(s: Snek)
    requires
        !s.live_spec(),
    ensures
        release_action(s) is None,
{
}

} // verus!
