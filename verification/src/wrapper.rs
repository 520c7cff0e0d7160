//! The declarative layer: a wrapper that holds one library and every symbol
//! a declared list named, built by resolving each declared symbol in order
//! and failing the whole construction on the first symbol that does not
//! resolve.

use vstd::prelude::*;

use crate::loader::diagnostic_text;
use crate::loader::load_symbol;
use crate::snek::Snek;
use crate::symbol::Symbol;
use crate::Error;

verus! {

/// A library together with every symbol its declared list named, all
/// resolved. A `Wrapper` only ever comes out of [`WrapperBuilder::finish`],
/// so no partially resolved wrapper can be observed: either every declared
/// symbol resolved, or the construction failed as a whole.
pub struct Wrapper {
    lib: Snek,
    symbols: Vec<usize>,
}

impl Wrapper {
    /// The library the wrapper owns.
    pub closed spec fn lib_spec(&self) -> Snek {
        self.lib
    }

    /// The resolved addresses, one per declared symbol, in declaration
    /// order.
    pub closed spec fn symbols_spec(&self) -> Seq<usize> {
        self.symbols@
    }

    /// Well-formedness: the library is live and every declared symbol
    /// resolved to a nonzero address.
    pub open spec fn wf(&self) -> bool {
        &&& self.lib_spec().wf()
        &&& self.lib_spec().live_spec()
        &&& forall|i: int|
            0 <= i < self.symbols_spec().len() ==> self.symbols_spec()[i] != 0
    }

    /// How many symbols the wrapper resolved.
    pub fn symbol_count(&self) -> (n: usize)
        ensures
            n == self.symbols_spec().len(),
    {
        self.symbols.len()
    }

    /// The `i`th declared symbol, bounded by the borrow of the wrapper so it
    /// cannot outlive the library it was resolved from.
    pub fn symbol_at<'a>(&'a self, i: usize) -> (s: Symbol<'a>)
        requires
            i < self.symbols_spec().len(),
        ensures
            s.address_spec() == self.symbols_spec()[i as int],
            s.owner_spec() == self.lib_spec().handle_spec(),
    {
        Symbol::new_owned(self.symbols[i], Ghost(self.lib_spec().handle_spec()))
    }

    /// Hands the library back, for its one release once the wrapper is done
    /// with.
    pub fn into_library(self) -> (l: Snek)
        ensures
            l == self.lib_spec(),
    {
        self.lib
    }
}

/// Builds a [`Wrapper`] the way a declared symbol list prescribes: take a
/// loaded library, resolve every declared symbol in order, and fail the
/// whole construction on the first symbol that does not resolve — handing
/// the library back so its close action is still taken by the normal path,
/// with no partially built wrapper left behind.
pub struct WrapperBuilder {
    lib: Snek,
    symbols: Vec<usize>,
}

impl WrapperBuilder {
    /// The library under construction.
    pub closed spec fn lib_spec(&self) -> Snek {
        self.lib
    }

    /// The addresses resolved so far, in declaration order.
    pub closed spec fn symbols_spec(&self) -> Seq<usize> {
        self.symbols@
    }

    /// Well-formedness: the library is live and every symbol resolved so far
    /// is a nonzero address.
    pub open spec fn wf(&self) -> bool {
        &&& self.lib_spec().wf()
        &&& self.lib_spec().live_spec()
        &&& forall|i: int|
            0 <= i < self.symbols_spec().len() ==> self.symbols_spec()[i] != 0
    }

    /// Starts a construction over a loaded library, with no symbols resolved
    /// yet.
    pub fn new(lib: Snek) -> (b: WrapperBuilder)
        requires
            lib.wf(),
            lib.live_spec(),
        ensures
            b.lib_spec() == lib,
            b.symbols_spec() =~= Seq::<usize>::empty(),
            b.wf(),
    {
        WrapperBuilder { lib, symbols: Vec::new() }
    }

    /// The handle of the library under construction, for the platform's
    /// resolve calls.
    pub fn library_handle(&self) -> (h: usize)
        ensures
            h == self.lib_spec().handle_spec(),
    {
        self.lib.handle()
    }

    /// Takes the outcome of one declared symbol's resolve call. A nonzero
    /// address extends the construction; the zero sentinel fails the whole
    /// construction, consuming the builder and handing the library back —
    /// still live — so the caller releases it by its normal path. Nothing of
    /// a failed construction survives but that library.
    pub fn add_symbol(self, address: usize, diagnostic: Option<String>) -> (r: Result<
        WrapperBuilder,
        (Snek, Error),
    >)
        requires
            self.wf(),
        ensures
            address != 0 ==> (r matches Ok(b) && b.lib_spec() == self.lib_spec()
                && b.symbols_spec() =~= self.symbols_spec().push(address) && b.wf()),
            address == 0 ==> (r matches Err((lib, Error::SymbolLoadError(m))) && lib
                == self.lib_spec() && m@ == diagnostic_text(diagnostic)),
    {
        match load_symbol(address, diagnostic) {
            Ok(a) => {
                let WrapperBuilder { lib, mut symbols } = self;
                symbols.push(a);
                Ok(WrapperBuilder { lib, symbols })
            },
            Err(e) => Err((self.lib, e)),
        }
    }

    /// Every declared symbol resolved: the finished wrapper.
    pub fn finish(self) -> (w: Wrapper)
        requires
            self.wf(),
        ensures
            w.lib_spec() == self.lib_spec(),
            w.symbols_spec() =~= self.symbols_spec(),
            w.wf(),
    {
        let WrapperBuilder { lib, symbols } = self;
        Wrapper { lib, symbols }
    }
}

} // verus!
