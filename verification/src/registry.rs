//! The access-controlled registry: who may register or remove peers, and
//! the service-result structures reported at the boundary.
//!
//! A mutating operation is privileged when its caller is the owner of the
//! registry instance or is itself currently registered — a delegated
//! admission chain: the owner registers peer `A`, after which `A` may
//! register peer `B`, and so on.  Removing a peer does not cascade to the
//! peers it admitted.  Unprivileged attempts are rejected with an explicit
//! error, never passed off as success.
//!
//! A registry is an explicitly constructed object, not an ambient global;
//! it owns its storage handle, and every mutating operation takes the
//! registry by exclusive reference, so operations on one instance are
//! mutually exclusive and none observes a partially applied mutation.

use vstd::prelude::*;

use crate::errors::{spec_error_code, spec_error_message, to_error_core, ProviderError,
    SUCCESS_CODE};
use crate::storage::{registered, Storage};

verus! {

/// Whether a caller may mutate the registry whose abstract store state is
/// `m`: it is the owner, or it is itself currently registered.
pub open spec fn privileged(m: Map<Seq<char>, bool>, caller: Seq<char>, owner: Seq<char>) -> bool {
    caller == owner || registered(m, caller)
}

/// The registration flag of one peer, as reported to the boundary.
#[derive(Clone, Debug, Default, Eq, PartialEq, Structural)]
pub struct Status {
    pub is_registered: bool,
}

/// The identities under which one call executes: who is calling, and who
/// owns the registry instance being called.  Both are trusted exactly as
/// supplied by the host environment.
#[derive(Clone, Debug)]
pub struct AccessContext {
    pub caller_id: String,
    pub owner_id: String,
}

/// Boundary result of a mutating operation: a numeric classification and a
/// human-readable message, [`SUCCESS_CODE`] and an empty message on
/// success.
#[derive(Clone, Debug, Eq, PartialEq)]
pub struct ProviderServiceResult {
    pub ret_code: i32,
    pub err_msg: String,
}

/// Boundary result of a status query: classification, message, and the
/// reported status (not registered whenever the query failed).
#[derive(Clone, Debug, Eq, PartialEq)]
pub struct GetStatusServiceResult {
    pub ret_code: i32,
    pub err_msg: String,
    pub status: Status,
}

impl ProviderServiceResult {
    /// Folds the outcome of a mutating operation into a boundary result.
    pub fn from(result: Result<(), ProviderError>) -> (r: Self)
        ensures
            result matches Ok(_) ==> r.ret_code == SUCCESS_CODE
                && r.err_msg@ == Seq::<char>::empty(),
            result matches Err(e) ==> r.ret_code == spec_error_code(e) && r.err_msg@
                == spec_error_message(e),
    {
        match result {
            Ok(_) => ProviderServiceResult { ret_code: SUCCESS_CODE, err_msg: String::new() },
            Err(err) => ProviderServiceResult {
                ret_code: to_error_core(&err),
                err_msg: err.message(),
            },
        }
    }
}

impl GetStatusServiceResult {
    /// Folds the outcome of a status query into a boundary result.
    pub fn from(result: Result<bool, ProviderError>) -> (r: Self)
        ensures
            result matches Ok(b) ==> r.ret_code == SUCCESS_CODE
                && r.err_msg@ == Seq::<char>::empty() && r.status.is_registered == b,
            result matches Err(e) ==> r.ret_code == spec_error_code(e) && r.err_msg@
                == spec_error_message(e) && !r.status.is_registered,
    {
        match result {
            Ok(s) => GetStatusServiceResult {
                ret_code: SUCCESS_CODE,
                err_msg: String::new(),
                status: Status { is_registered: s },
            },
            Err(err) => GetStatusServiceResult {
                ret_code: to_error_core(&err),
                err_msg: err.message(),
                status: Status { is_registered: false },
            },
        }
    }
}

/// The registry service: the sole mutator of its storage backend.
pub struct Registry {
    storage: Storage,
}

impl Registry {
    /// The abstract store state: peer identity to registration flag.
    pub closed spec fn view(&self) -> Map<Seq<char>, bool> {
        self.storage@
    }

    /// Internal well-formedness, established by the constructor and
    /// preserved by every operation.
    pub closed spec fn wf(&self) -> bool {
        self.storage.wf()
    }

    /// Creates a registry over a freshly initialized empty store.
    pub fn new() -> (r: Registry)
        ensures
            r.wf(),
            r@ == Map::<Seq<char>, bool>::empty(),
    {
        let mut storage = Storage::new();
        let _ = storage.init();
        Registry { storage }
    }

    /// Reports whether the caller of `ctx` is registered.  A peer for which
    /// no record exists reads as not registered; a storage error would be
    /// surfaced as an error, never read as "not registered" (the in-memory
    /// backend never produces one, so the query always succeeds).
    pub fn get_status(&self, ctx: &AccessContext) -> (r: Result<Status, ProviderError>)
        requires
            self.wf(),
        ensures
            r == Ok::<Status, ProviderError>(
                (Status { is_registered: registered(self@, ctx.caller_id@) }),
            ),
    {
        let is_registered = self.storage.contains(ctx.caller_id.clone())?;
        Ok(Status { is_registered })
    }

    /// Registers `peer_id`, provided the caller of `ctx` is privileged.
    ///
    /// Rejects an empty peer identity outright, before the privilege
    /// check.  A privileged call upserts the record with the flag set and
    /// is idempotent; an unprivileged call is rejected explicitly and
    /// leaves the store untouched.
    pub fn register(&mut self, ctx: &AccessContext, peer_id: String) -> (r: Result<
        (),
        ProviderError,
    >)
        requires
            old(self).wf(),
        ensures
            final(self).wf(),
            peer_id@.len() == 0 ==> r == Err::<(), ProviderError>(ProviderError::InvalidArgument)
                && final(self)@ == old(self)@,
            peer_id@.len() > 0 && privileged(old(self)@, ctx.caller_id@, ctx.owner_id@) ==> r
                == Ok::<(), ProviderError>(())
                && final(self)@ == old(self)@.insert(peer_id@, true),
            peer_id@.len() > 0 && !privileged(old(self)@, ctx.caller_id@, ctx.owner_id@) ==> r
                == Err::<(), ProviderError>(ProviderError::Unauthorized)
                && final(self)@ == old(self)@,
    {
        if peer_id.as_str().is_empty() {
            return Err(ProviderError::InvalidArgument);
        }
        if self.caller_privileged(ctx)? {
            self.storage.add(peer_id, true)
        } else {
            Err(ProviderError::Unauthorized)
        }
    }

    /// Removes the record of `peer_id`, provided the caller of `ctx` is
    /// privileged.
    ///
    /// Rejects an empty peer identity outright, before the privilege
    /// check.  A privileged call succeeds whether or not a record exists;
    /// an unprivileged call is rejected explicitly and leaves the store
    /// untouched.  Removal does not cascade: peers admitted by `peer_id`
    /// stay registered.
    pub fn remove(&mut self, ctx: &AccessContext, peer_id: String) -> (r: Result<
        (),
        ProviderError,
    >)
        requires
            old(self).wf(),
        ensures
            final(self).wf(),
            peer_id@.len() == 0 ==> r == Err::<(), ProviderError>(ProviderError::InvalidArgument)
                && final(self)@ == old(self)@,
            peer_id@.len() > 0 && privileged(old(self)@, ctx.caller_id@, ctx.owner_id@) ==> r
                == Ok::<(), ProviderError>(()) && final(self)@ == old(self)@.remove(peer_id@),
            peer_id@.len() > 0 && !privileged(old(self)@, ctx.caller_id@, ctx.owner_id@) ==> r
                == Err::<(), ProviderError>(ProviderError::Unauthorized)
                && final(self)@ == old(self)@,
    {
        if peer_id.as_str().is_empty() {
            return Err(ProviderError::InvalidArgument);
        }
        if self.caller_privileged(ctx)? {
            self.storage.delete(peer_id)
        } else {
            Err(ProviderError::Unauthorized)
        }
    }

    /// Decides the privilege of the caller of `ctx`.  A storage failure
    /// during the check would be surfaced, never read as "not registered";
    /// the in-memory backend never fails.
    fn caller_privileged(&self, ctx: &AccessContext) -> (r: Result<bool, ProviderError>)
        requires
            self.wf(),
        ensures
            r == Ok::<bool, ProviderError>(privileged(self@, ctx.caller_id@, ctx.owner_id@)),
    {
        if ctx.caller_id == ctx.owner_id {
            return Ok(true);
        }
        self.storage.contains(ctx.caller_id.clone())
    }
}

/// Registering is idempotent: a second registration of the same peer
/// leaves the store exactly as the first did, with the peer registered;
/// and a caller privileged before a registration is still privileged after
/// it, so the second call succeeds as well.
pub proof fn lemma_register_idempotent(
    m: Map<Seq<char>, bool>,
    caller: Seq<char>,
    owner: Seq<char>,
    target: Seq<char>,
)
    requires
        privileged(m, caller, owner),
    ensures
        m.insert(target, true).insert(target, true) == m.insert(target, true),
        registered(m.insert(target, true), target),
        privileged(m.insert(target, true), caller, owner),
{
    assert(m.insert(target, true).insert(target, true) =~= m.insert(target, true));
}

/// Removing an absent peer is a no-op: the store is unchanged (and the
/// contract of `remove` has a privileged call succeed whether or not the
/// peer was present).
pub proof fn lemma_remove_absent(m: Map<Seq<char>, bool>, target: Seq<char>)
    requires
        !m.contains_key(target),
    ensures
        m.remove(target) == m,
{
    assert(m.remove(target) =~= m);
}

/// Delegated admission: once the owner registers `a`, a call from `a`
/// carries privilege with no owner identity of its own; while a peer `c`
/// that is neither the owner nor registered stays unprivileged, so its
/// registration attempts are rejected.
pub proof fn lemma_delegated_admission(
    m: Map<Seq<char>, bool>,
    owner: Seq<char>,
    a: Seq<char>,
    c: Seq<char>,
)
    requires
        c != owner,
        !registered(m.insert(a, true), c),
    ensures
        privileged(m.insert(a, true), a, owner),
        !privileged(m.insert(a, true), c, owner),
{
}

/// No de-registration cascade: removing one peer leaves the registration
/// of every other peer — including the peers it admitted — unchanged.
pub proof fn lemma_remove_no_cascade(
    m: Map<Seq<char>, bool>,
    target: Seq<char>,
    other: Seq<char>,
)
    requires
        other != target,
    ensures
        registered(m.remove(target), other) == registered(m, other),
{
}

/// Status consistency: a peer identity for which no record was ever
/// created reads as not registered.
pub proof fn lemma_status_default(m: Map<Seq<char>, bool>, peer: Seq<char>)
    requires
        !m.contains_key(peer),
    ensures
        !registered(m, peer),
{
}

} // verus!
