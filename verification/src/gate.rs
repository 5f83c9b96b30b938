//! The shape of an operation that may ask for authorization.
//!
//! A contract operation first runs the checks that need no signature. If one
//! fails the operation is refused. Otherwise it names the addresses that must
//! authorize it; the host checks their signatures (and aborts the whole call
//! when one is missing), and then the rest of the operation decides between
//! an error and success.

use vstd::prelude::*;
use crate::address::{Address, address_views};

verus! {

/// The result of an operation whose later part runs only once the named
/// signers have authorized the call.
#[derive(Debug)]
pub enum Gated<T, E> {
    /// Refused before any authorization was asked for.
    Refused { error: E },
    /// `signers` must authorize the call, in this order; `outcome` is what
    /// the operation decides once they have.
    Signed { signers: Vec<Address>, outcome: Result<T, E> },
}

/// What an operation decides, leaving out what it returns on success.
pub enum Verdict<E> {
    /// Fails before authorization is asked for.
    Refused(E),
    /// Fails after the signers have authorized the call.
    Rejected(E),
    /// Succeeds once the signers have authorized the call.
    Accepted,
}

impl<E> Verdict<E> {
    pub open spec fn is_accepted(self) -> bool {
        self is Accepted
    }
}

/// `g` is an operation result that decides `v`.
pub open spec fn gated_agrees<T, E>(g: Gated<T, E>, v: Verdict<E>) -> bool {
    match v {
        Verdict::Refused(e) => g is Refused && g->error == e,
        Verdict::Rejected(e) => g is Signed && g->outcome == Err::<T, E>(e),
        Verdict::Accepted => g is Signed && g->outcome is Ok,
    }
}

/// When `g` asks for authorization, the signers it names are `who`.
pub open spec fn gated_signers<T, E>(g: Gated<T, E>, who: Seq<Seq<u8>>) -> bool {
    g is Signed ==> address_views(g->signers@) == who
}

/// The value of a successful operation.
pub open spec fn gated_value<T, E>(g: Gated<T, E>) -> T
    recommends
        g is Signed && g->outcome is Ok,
{
    g->outcome->Ok_0
}

/// A vector holding the one signer `a`.
pub fn one_signer(a: &Address) -> (r: Vec<Address>)
    ensures
        address_views(r@) == seq![a@],
{
    let mut v: Vec<Address> = Vec::new();
    v.push(a.duplicate());
    proof {
        assert(address_views(v@) =~= seq![a@]);
    }
    v
}

/// A vector holding the two signers `a` and `b`, in this order.
pub fn two_signers(a: &Address, b: &Address) -> (r: Vec<Address>)
    ensures
        address_views(r@) == seq![a@, b@],
{
    let mut v: Vec<Address> = Vec::new();
    v.push(a.duplicate());
    v.push(b.duplicate());
    proof {
        assert(address_views(v@) =~= seq![a@, b@]);
    }
    v
}

} // verus!
