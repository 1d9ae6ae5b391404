//! The handle carrier: it takes ownership of application handles and gives out
//! small tokens in their place.
//!
//! A token is inert data, fit to be stored by a native layer that knows
//! nothing of the application's types and handed back verbatim later. The
//! carrier never gives a handle up again: a token, once issued, names the same
//! handle for as long as the carrier lives.

use vstd::prelude::*;

verus! {

/// What stands for a carried handle on the far side of the native boundary.
#[derive(Clone, Copy, Debug, PartialEq, Eq, Structural)]
pub struct HandleToken {
    /// The place of the handle in its carrier.
    pub slot: usize,
}

/// The handles carried so far, in the order in which they came.
pub struct HandleCarrier<H> {
    slots: Vec<H>,
}

/// The handle that `token` names among `handles`, if it names one.
pub open spec fn carried<H>(handles: Seq<H>, token: HandleToken) -> Option<H> {
    if token.slot < handles.len() {
        Some(handles[token.slot as int])
    } else {
        None
    }
}

impl<H> View for HandleCarrier<H> {
    type V = Seq<H>;

    closed spec fn view(&self) -> Seq<H> {
        self.slots@
    }
}

impl<H> HandleCarrier<H> {
    /// A carrier that holds nothing yet.
    pub fn new() -> (carrier: Self)
        ensures
            carrier@ == Seq::<H>::empty(),
    {
        HandleCarrier { slots: Vec::new() }
    }

    /// Takes `handle` over and returns the token that names it from now on.
    /// Every handle carried before stays where it was.
    pub fn carry(&mut self, handle: H) -> (token: HandleToken)
        ensures
            final(self)@ == old(self)@.push(handle),
            token.slot == old(self)@.len(),
            carried(final(self)@, token) == Some(handle),
    {
        let slot: usize = self.slots.len();
        self.slots.push(handle);
        HandleToken { slot }
    }

    /// A borrowed view of the handle that `token` names; `None` for a token
    /// this carrier never issued.
    pub fn borrow(&self, token: HandleToken) -> (found: Option<&H>)
        ensures
            found is Some <==> carried(self@, token) is Some,
            found matches Some(handle) ==> carried(self@, token) == Some(*handle),
    {
        if token.slot < self.slots.len() {
            Some(&self.slots[token.slot])
        } else {
            None
        }
    }

    /// How many handles the carrier holds.
    pub fn len(&self) -> (count: usize)
        ensures
            count == self@.len(),
    {
        self.slots.len()
    }
}

/// A handle that is carried comes back unchanged under the token it was given
/// (the token `carry` returns names the place just behind the handles carried
/// before), and keeps doing so however many handles are carried after it.
pub proof fn lemma_token_round_trip<H>(
    before: Seq<H>,
    handle: H,
    later: Seq<H>,
    token: HandleToken,
)
    requires
        token.slot == before.len(),
    ensures
        carried(before.push(handle), token) == Some(handle),
        carried(before.push(handle) + later, token) == Some(handle),
{
}

/// Carrying one more handle changes nothing for the tokens issued before.
pub proof fn lemma_carried_handles_stay<H>(handles: Seq<H>, token: HandleToken, handle: H)
    requires
        carried(handles, token) is Some,
    ensures
        carried(handles.push(handle), token) == carried(handles, token),
{
}

} // verus!
