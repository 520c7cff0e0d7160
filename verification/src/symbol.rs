//! A resolved symbol: one opaque address, borrowed from the library it was
//! resolved in.

use core::marker::PhantomData;
use vstd::prelude::*;

verus! {

/// A symbol resolved from a loaded library: one opaque, address-sized value
/// with no type attached. The lifetime parameter bounds every symbol by the
/// borrow of the library it was resolved from, so a symbol cannot outlive
/// its library. Invoking the address as a function of some asserted
/// signature is not an operation of this library: it is the caller's own
/// trust boundary, and the address is handed out for it by [`Symbol::address`].
pub struct Symbol<'a> {
    symbol: usize,
    owner: Ghost<usize>,
    _life: PhantomData<&'a ()>,
}

impl<'a> Symbol<'a> {
    /// The opaque address this symbol resolved to.
    pub closed spec fn address_spec(&self) -> usize {
        self.symbol
    }

    /// The handle of the library this symbol was resolved from — the
    /// back-reference that ties the symbol to exactly one library.
    pub closed spec fn owner_spec(&self) -> usize {
        self.owner@
    }

    /// Wraps a resolved address. Not meant for arbitrary callers — symbols
    /// come from [`crate::Snek::symbol`], which records which library they
    /// belong to — though nothing prevents constructing one directly.
    pub fn new(symbol: usize) -> (s: Symbol<'a>)
        ensures
            s.address_spec() == symbol,
    {
        Symbol { symbol, owner: Ghost(0), _life: PhantomData }
    }

    /// Wraps a resolved address together with the handle of the library it
    /// was resolved from.
    pub(crate) fn new_owned(symbol: usize, owner: Ghost<usize>) -> (s: Symbol<'a>)
        ensures
            s.address_spec() == symbol,
            s.owner_spec() == owner@,
    {
        Symbol { symbol, owner, _life: PhantomData }
    }

    /// The resolved address, for the caller's invocation boundary. The
    /// address carries no type information: reading it as a function of some
    /// signature is an unchecked assertion by the caller.
    pub fn address(&self) -> (a: usize)
        ensures
            a == self.address_spec(),
    {
        self.symbol
    }
}

} // verus!
