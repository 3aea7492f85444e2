//! The correlation registry: outstanding outbound calls, keyed by the token
//! that the host issued when the call was dispatched.

use std::collections::HashMap;
use vstd::prelude::*;

verus! {

/// The stage whose handler must process the reply of a call.
#[derive(Clone, Copy, Debug, PartialEq, Eq, Structural)]
pub enum CallKind {
    Guard,
    Embeddings,
    ZeroShotIntent,
    FunctionCalling,
    HallucinationCheck,
    DeveloperApi,
}

/// What a registry entry remembers of the call it stands for.
#[derive(Clone, Copy, Debug, PartialEq, Eq, Structural)]
pub struct PendingCall {
    pub kind: CallKind,
    /// The prompt target the call was made for, if one was resolved.
    pub target: Option<usize>,
}

/// A violation of the registry's own bookkeeping.
#[derive(Clone, Copy, Debug, PartialEq, Eq, Structural)]
pub enum RegistryError {
    /// A token was issued twice while its first call was still outstanding.
    DuplicateToken,
    /// A reply came for a token that has no outstanding call.
    UnknownToken,
}

/// Outstanding calls by token.
pub struct CallRegistry {
    entries: HashMap<u32, PendingCall>,
}

impl View for CallRegistry {
    type V = Map<u32, PendingCall>;

    closed spec fn view(&self) -> Map<u32, PendingCall> {
        self.entries@
    }
}

impl CallRegistry {
    /// The registry's own invariant; the map keeps it by itself.
    pub closed spec fn wf(&self) -> bool {
        true
    }

    /// An empty registry.
    pub fn new() -> (r: CallRegistry)
        ensures
            r.wf(),
            r@ == Map::<u32, PendingCall>::empty(),
    {
        CallRegistry { entries: HashMap::new() }
    }

    /// Whether a call with this token is outstanding.
    pub fn contains(&self, token: u32) -> (r: bool)
        requires
            self.wf(),
        ensures
            r == self@.contains_key(token),
    {
        broadcast use vstd::std_specs::hash::group_hash_axioms;
        self.entries.contains_key(&token)
    }

    /// The outstanding call with this token, if any, left in place.
    pub fn get(&self, token: u32) -> (r: Option<PendingCall>)
        requires
            self.wf(),
        ensures
            r == (if self@.contains_key(token) { Some(self@[token]) } else { None::<PendingCall> }),
    {
        broadcast use vstd::std_specs::hash::group_hash_axioms;
        match self.entries.get(&token) {
            Some(call) => Some(*call),
            None => None,
        }
    }

    /// Whether no call is outstanding.
    pub fn is_empty(&self) -> (r: bool)
        requires
            self.wf(),
        ensures
            r == (self@ == Map::<u32, PendingCall>::empty()),
    {
        let r = self.entries.is_empty();
        proof {
            if !r {
                assert(self@ != Map::<u32, PendingCall>::empty());
            } else {
                assert(self@ =~= Map::<u32, PendingCall>::empty());
            }
        }
        r
    }

    /// Records a dispatched call. A token that is already outstanding is
    /// refused and the registry stays as it was.
    pub fn dispatch(&mut self, token: u32, call: PendingCall) -> (r: Result<(), RegistryError>)
        requires
            old(self).wf(),
        ensures
            final(self).wf(),
            old(self)@.contains_key(token) ==> r == Err::<(), RegistryError>(RegistryError::DuplicateToken)
                && final(self)@ == old(self)@,
            !old(self)@.contains_key(token) ==> r is Ok && final(self)@ == old(self)@.insert(token, call),
    {
        broadcast use vstd::std_specs::hash::group_hash_axioms;
        if self.entries.contains_key(&token) {
            return Err(RegistryError::DuplicateToken);
        }
        self.entries.insert(token, call);
        Ok(())
    }

    /// Takes out the call with this token: it is removed, and a second
    /// completion of the same token is refused. A token with no outstanding
    /// call is reported and the registry stays as it was.
    pub fn complete(&mut self, token: u32) -> (r: Result<PendingCall, RegistryError>)
        requires
            old(self).wf(),
        ensures
            final(self).wf(),
            old(self)@.contains_key(token) ==> r == Ok::<PendingCall, RegistryError>(old(self)@[token])
                && final(self)@ == old(self)@.remove(token),
            !old(self)@.contains_key(token) ==> r == Err::<PendingCall, RegistryError>(RegistryError::UnknownToken)
                && *final(self) == *old(self),
    {
        broadcast use vstd::std_specs::hash::group_hash_axioms;
        if !self.entries.contains_key(&token) {
            return Err(RegistryError::UnknownToken);
        }
        match self.entries.remove(&token) {
            Some(call) => Ok(call),
            None => Err(RegistryError::UnknownToken),
        }
    }

    /// Drops every outstanding call, as when the client has gone away.
    pub fn abandon_all(&mut self)
        requires
            old(self).wf(),
        ensures
            final(self).wf(),
            final(self)@ == Map::<u32, PendingCall>::empty(),
    {
        self.entries.clear();
    }
}

/// Completing a token that was just completed finds nothing: each entry is
/// removed exactly once, and the second completion is reported.
pub proof fn lemma_removed_once(m: Map<u32, PendingCall>, token: u32)
    ensures
        !m.remove(token).contains_key(token),
        forall|k: u32| k != token ==> (m.remove(token).contains_key(k) == m.contains_key(k)),
{
}

} // verus!
