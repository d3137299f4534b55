//! The call-provenance verifier: pins one expected caller tuple and checks
//! later observed tuples against it.
//!
//! Pinning carries no authorization check — it is itself the
//! trust-establishing action, to be invoked by a trusted setup step.  A
//! verifier holds at most one pinned tuple; a later pin overwrites the
//! earlier one, last write wins, no history.

use vstd::prelude::*;

verus! {

/// The four-part identity of who, what and where a call is claimed to
/// originate from.
#[derive(Clone, Debug, Default, Eq, PartialEq)]
pub struct Tetraplet {
    pub peer_pk: String,
    pub service_id: String,
    pub fn_name: String,
    pub json_path: String,
}

/// Whether two tuples agree on all four fields, by exact, ordinal string
/// equality: no normalization, no wildcard.
pub open spec fn tetraplet_eq(a: Tetraplet, b: Tetraplet) -> bool {
    a.peer_pk@ == b.peer_pk@ && a.service_id@ == b.service_id@ && a.fn_name@ == b.fn_name@
        && a.json_path@ == b.json_path@
}

/// What a provenance check reports for a given pinned state: `false`
/// whenever nothing is pinned, else exact agreement of the observed tuple
/// with the pinned one.
pub open spec fn verifies(pinned: Option<Tetraplet>, observed: Tetraplet) -> bool {
    match pinned {
        None => false,
        Some(t) => tetraplet_eq(t, observed),
    }
}

/// The provenance verifier: sole owner of its single pinned tuple.
pub struct ProvenanceVerifier {
    expected: Option<Tetraplet>,
}

impl ProvenanceVerifier {
    /// The currently pinned tuple, if any.
    pub closed spec fn pinned(&self) -> Option<Tetraplet> {
        self.expected
    }

    /// Creates a verifier with nothing pinned yet.
    pub fn new() -> (v: ProvenanceVerifier)
        ensures
            v.pinned() == None::<Tetraplet>,
    {
        ProvenanceVerifier { expected: None }
    }

    /// Pins the expected caller tuple, unconditionally overwriting any
    /// tuple pinned before.
    pub fn set_tetraplet(
        &mut self,
        peer_id: String,
        service_id: String,
        fn_name: String,
        path: String,
    )
        ensures
            final(self).pinned() == Some(
                (Tetraplet {
                    peer_pk: peer_id,
                    service_id: service_id,
                    fn_name: fn_name,
                    json_path: path,
                }),
            ),
    {
        self.expected = Some(
            Tetraplet { peer_pk: peer_id, service_id, fn_name, json_path: path },
        );
    }

    /// Checks the observed tuple against the pinned one: `true` iff a
    /// tuple is pinned and all four fields agree exactly.  A pure read; in
    /// particular, `false` whenever nothing is pinned yet.
    pub fn is_authorized(&self, observed: &Tetraplet) -> (r: bool)
        ensures
            r == verifies(self.pinned(), *observed),
    {
        match &self.expected {
            None => false,
            Some(t) => {
                t.peer_pk == observed.peer_pk && t.service_id == observed.service_id
                    && t.fn_name == observed.fn_name && t.json_path == observed.json_path
            },
        }
    }
}

/// Pin then verify: a check of the very tuple that was pinned passes,
/// while any tuple differing from it in at least one field fails.
pub proof fn lemma_pin_verify(t: Tetraplet, other: Tetraplet)
    requires
        !tetraplet_eq(t, other),
    ensures
        verifies(Some(t), t),
        !verifies(Some(t), other),
{
}

/// Before the first pin, no tuple whatsoever passes the check.
pub proof fn lemma_unpinned_never_verifies(observed: Tetraplet)
    ensures
        !verifies(None::<Tetraplet>, observed),
{
}

/// Re-pin overwrites: once a second tuple is pinned, a check of the first
/// fails (when the two disagree) and a check of the second passes.
pub proof fn lemma_repin_overwrite(t1: Tetraplet, t2: Tetraplet)
    requires
        !tetraplet_eq(t2, t1),
    ensures
        !verifies(Some(t2), t1),
        verifies(Some(t2), t2),
{
}

} // verus!
