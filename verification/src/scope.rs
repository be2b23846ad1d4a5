//! Who is executing: the scope of a unit of work, and the registry that
//! holds the scope installed around the work that runs now.

use vstd::prelude::*;
use std::sync::Arc;
use crate::addr::Addr;
use crate::object::ObjectMeta;
use crate::object::ObjectMetaView;
use crate::permissions::AtomicPermissions;
use crate::permissions::Permissions;
use crate::rate_limiter::RateLimiter;
use crate::trace_id::TraceId;
use crate::trace_id::TraceIdGenerator;

verus! {

/// `Arc::clone`: one more handle to the value that `handle` shares. The
/// value is not copied, so the new handle stands for the very same value.
#[verifier::external_body]
fn share<T>(handle: &Arc<T>) -> (shared: Arc<T>)
    ensures
        shared == *handle,
{
    Arc::clone(handle)
}

/// The identity under which a unit of work runs.
///
/// A scope belongs to one unit of work at a time. Work that goes on elsewhere
/// under the same identity takes a duplicate: the duplicate starts with the
/// same trace token and keeps its own from then on, while the metadata, the
/// policy store and the limiter stay shared between the two.
pub struct Scope {
    actor: Addr,
    group: Addr,
    meta: Arc<ObjectMeta>,
    trace_id: TraceId,
    // Per group.
    permissions: Arc<AtomicPermissions>,
    logging_limiter: Arc<RateLimiter>,
}

/// What a [`Scope`] stands for.
///
/// `permissions` and `logging_limiter` are the shared objects themselves: two
/// scopes with equal views read and update the same store and the same
/// limiter.
pub struct ScopeView {
    pub actor: Addr,
    pub group: Addr,
    pub meta: ObjectMetaView,
    pub trace_id: TraceId,
    pub permissions: AtomicPermissions,
    pub logging_limiter: RateLimiter,
}

impl ScopeView {
    /// This identity, at work for the trace `trace_id`.
    pub open spec fn with_trace_id(self, trace_id: TraceId) -> ScopeView {
        ScopeView { trace_id, ..self }
    }
}

impl View for Scope {
    type V = ScopeView;

    closed spec fn view(&self) -> ScopeView {
        ScopeView {
            actor: self.actor,
            group: self.group,
            meta: self.meta@,
            trace_id: self.trace_id,
            permissions: *self.permissions,
            logging_limiter: *self.logging_limiter,
        }
    }
}

impl Clone for Scope {
    /// A duplicate for work that goes on elsewhere under the same identity.
    fn clone(&self) -> (duplicate: Scope)
        ensures
            duplicate@ == self@,
    {
        Scope {
            actor: self.actor,
            group: self.group,
            meta: share(&self.meta),
            trace_id: self.trace_id,
            permissions: share(&self.permissions),
            logging_limiter: share(&self.logging_limiter),
        }
    }
}

impl Scope {
    /// The scope of the actor `actor` of the group `group`, at work for a
    /// trace of its own, whose token `trace_ids` generates.
    pub fn new(
        actor: Addr,
        group: Addr,
        meta: Arc<ObjectMeta>,
        perm: Arc<AtomicPermissions>,
        logging_limiter: Arc<RateLimiter>,
        trace_ids: &mut TraceIdGenerator,
    ) -> (scope: Scope)
        ensures
            scope@ == (ScopeView {
                actor,
                group,
                meta: meta@,
                trace_id: TraceId { bits: old(trace_ids).upcoming() },
                permissions: *perm,
                logging_limiter: *logging_limiter,
            }),
            final(trace_ids).upcoming() == crate::trace_id::successor(old(trace_ids).upcoming()),
    {
        Self::with_trace_id(trace_ids.generate(), actor, group, meta, perm, logging_limiter)
    }

    /// The scope of the actor `actor` of the group `group`, at work for the
    /// trace `trace_id`, which began elsewhere.
    pub fn with_trace_id(
        trace_id: TraceId,
        actor: Addr,
        group: Addr,
        meta: Arc<ObjectMeta>,
        permissions: Arc<AtomicPermissions>,
        logging_limiter: Arc<RateLimiter>,
    ) -> (scope: Scope)
        ensures
            scope@ == (ScopeView {
                actor,
                group,
                meta: meta@,
                trace_id,
                permissions: *permissions,
                logging_limiter: *logging_limiter,
            }),
    {
        Scope { actor, group, meta, trace_id, permissions, logging_limiter }
    }

    /// The address of the actor. An older name of [`Scope::actor`].
    pub fn addr(&self) -> (actor: Addr)
        ensures
            actor == self@.actor,
    {
        self.actor
    }

    /// The address of the actor.
    pub fn actor(&self) -> (actor: Addr)
        ensures
            actor == self@.actor,
    {
        self.actor
    }

    /// The address of the actor's group.
    pub fn group(&self) -> (group: Addr)
        ensures
            group == self@.group,
    {
        self.group
    }

    /// The actor's metadata.
    pub fn meta(&self) -> (meta: &Arc<ObjectMeta>)
        ensures
            meta@ == self@.meta,
    {
        &self.meta
    }

    /// The token of the trace that the work belongs to now.
    pub fn trace_id(&self) -> (trace_id: TraceId)
        ensures
            trace_id == self@.trace_id,
    {
        self.trace_id
    }

    /// Puts the work under the trace `trace_id`. Duplicates taken before keep
    /// the token that they have.
    pub fn set_trace_id(&mut self, trace_id: TraceId)
        ensures
            final(self)@ == old(self)@.with_trace_id(trace_id),
    {
        self.trace_id = trace_id;
    }

    /// The group's policy as it stands now (for logging, telemetry and so
    /// on), read from the store that the group's scopes share.
    pub fn permissions(&self) -> Permissions {
        self.permissions.load()
    }

    /// The limiter that the group's actors share for their logging.
    pub fn logging_limiter(&self) -> (limiter: &RateLimiter)
        ensures
            *limiter == self@.logging_limiter,
    {
        &self.logging_limiter
    }
}

impl Scope {
    /// Runs `f` with this scope installed in `ambient`: `f` finds the scope
    /// there for as long as it runs. When `f` is done the scope is dropped and
    /// the registry is again as it was found.
    pub fn sync_within<R, F: FnOnce(&mut Ambient) -> R>(self, ambient: &mut Ambient, f: F) -> (result:
        R)
        requires
            forall|during: &mut Ambient| during.current() == Some(self) ==> f.requires((during,)),
        ensures
            final(ambient).current() == old(ambient).current(),
            exists|during: &mut Ambient|
                during.current() == Some(self) && #[trigger] f.ensures((during,), result),
    {
        let before = ambient.install(self);
        let result = f(ambient);
        ambient.restore(before);
        result
    }
}

/// The registry of the scope that is installed around the work that runs
/// now. It holds one scope or none, and is handed to the work explicitly.
pub struct Ambient {
    slot: Option<Scope>,
}

impl Ambient {
    /// The scope that is installed, if any.
    pub closed spec fn current(&self) -> Option<Scope> {
        self.slot
    }

    /// What a reader of the registry is given: the identity that is
    /// installed, if any.
    pub open spec fn exposed(&self) -> Option<ScopeView> {
        match self.current() {
            Some(scope) => Some(scope@),
            None => None,
        }
    }

    /// A registry in which nothing is installed: the state outside of every
    /// unit of work.
    pub fn new() -> (ambient: Ambient)
        ensures
            ambient.current() is None,
    {
        Ambient { slot: None }
    }

    /// Whether a scope is installed.
    pub fn is_installed(&self) -> (installed: bool)
        ensures
            installed == (self.current() is Some),
    {
        self.slot.is_some()
    }

    /// Installs `scope` for the work that begins. Hands back what was
    /// installed before, for [`Ambient::restore`] when that work ends.
    pub fn install(&mut self, scope: Scope) -> (before: Option<Scope>)
        ensures
            final(self).current() == Some(scope),
            before == old(self).current(),
    {
        let mut slot = Some(scope);
        core::mem::swap(&mut self.slot, &mut slot);
        slot
    }

    /// Ends the work that [`Ambient::install`] began: puts back `before`, and
    /// hands back the scope under which the work ran.
    pub fn restore(&mut self, before: Option<Scope>) -> (ended: Option<Scope>)
        ensures
            final(self).current() == before,
            ended == old(self).current(),
    {
        let mut slot = before;
        core::mem::swap(&mut self.slot, &mut slot);
        slot
    }
}

/// Exposes the current scope in order to send it to other tasks.
///
/// The caller sees to it that a scope is installed: outside of every unit of
/// work there is nothing to expose.
pub fn expose(ambient: &Ambient) -> (scope: Scope)
    requires
        ambient.current() is Some,
    ensures
        ambient.exposed() == Some(scope@),
{
    match &ambient.slot {
        Some(scope) => scope.clone(),
        None => vstd::pervasive::unreached(),
    }
}

/// Exposes the current scope if one is installed.
pub fn try_expose(ambient: &Ambient) -> (scope: Option<Scope>)
    ensures
        match scope {
            Some(scope) => ambient.exposed() == Some(scope@),
            None => ambient.exposed() is None,
        },
{
    match &ambient.slot {
        Some(scope) => Some(scope.clone()),
        None => None,
    }
}

/// Runs `f` on the current scope, without duplicating it.
///
/// The caller sees to it that a scope is installed.
pub fn with<R, F: FnOnce(&Scope) -> R>(ambient: &Ambient, f: F) -> (result: R)
    requires
        ambient.current() is Some,
        f.requires((&ambient.current().unwrap(),)),
    ensures
        f.ensures((&ambient.current().unwrap(),), result),
{
    match try_with(ambient, f) {
        Some(result) => result,
        None => vstd::pervasive::unreached(),
    }
}

/// Runs `f` on the current scope, without duplicating it, if one is
/// installed. Without one `f` is not called.
pub fn try_with<R, F: FnOnce(&Scope) -> R>(ambient: &Ambient, f: F) -> (result: Option<R>)
    requires
        ambient.current() is Some ==> f.requires((&ambient.current().unwrap(),)),
    ensures
        match result {
            Some(result) => ambient.current() is Some && f.ensures(
                (&ambient.current().unwrap(),),
                result,
            ),
            None => ambient.current() is None,
        },
{
    match &ambient.slot {
        Some(scope) => Some(f(scope)),
        None => None,
    }
}

/// The token of the trace that the current work belongs to.
///
/// The caller sees to it that a scope is installed.
pub fn trace_id(ambient: &Ambient) -> (trace_id: TraceId)
    requires
        ambient.current() is Some,
    ensures
        trace_id == ambient.exposed().unwrap().trace_id,
{
    with(ambient, |scope: &Scope| -> (trace_id: TraceId)
        ensures
            trace_id == scope@.trace_id,
        { scope.trace_id() })
}

/// The token of the trace that the current work belongs to, if a scope is
/// installed.
pub fn try_trace_id(ambient: &Ambient) -> (trace_id: Option<TraceId>)
    ensures
        match trace_id {
            Some(trace_id) => ambient.exposed() is Some
                && trace_id == ambient.exposed().unwrap().trace_id,
            None => ambient.exposed() is None,
        },
{
    try_with(ambient, |scope: &Scope| -> (trace_id: TraceId)
        ensures
            trace_id == scope@.trace_id,
        { scope.trace_id() })
}

/// Puts the current work under the trace `trace_id`. Scopes exposed before
/// keep the token that they have.
///
/// The caller sees to it that a scope is installed.
pub fn set_trace_id(ambient: &mut Ambient, trace_id: TraceId)
    requires
        old(ambient).current() is Some,
    ensures
        final(ambient).exposed() == Some(old(ambient).exposed().unwrap().with_trace_id(trace_id)),
{
    match &mut ambient.slot {
        Some(scope) => scope.set_trace_id(trace_id),
        None => {},
    }
}

/// The metadata of the actor that is at work.
///
/// The caller sees to it that a scope is installed.
pub fn meta(ambient: &Ambient) -> (meta: Arc<ObjectMeta>)
    requires
        ambient.current() is Some,
    ensures
        meta@ == ambient.exposed().unwrap().meta,
{
    with(ambient, |scope: &Scope| -> (meta: Arc<ObjectMeta>)
        ensures
            meta@ == scope@.meta,
        { share(scope.meta()) })
}

/// The metadata of the actor that is at work, if a scope is installed.
pub fn try_meta(ambient: &Ambient) -> (meta: Option<Arc<ObjectMeta>>)
    ensures
        match meta {
            Some(meta) => ambient.exposed() is Some && meta@ == ambient.exposed().unwrap().meta,
            None => ambient.exposed() is None,
        },
{
    try_with(ambient, |scope: &Scope| -> (meta: Arc<ObjectMeta>)
        ensures
            meta@ == scope@.meta,
        { share(scope.meta()) })
}

/// A scope keeps the addresses it was made with: putting it under another
/// trace changes its token and nothing else.
pub proof fn retracing_keeps_identity(scope: ScopeView, trace_id: TraceId)
    ensures
        scope.with_trace_id(trace_id).trace_id == trace_id,
        scope.with_trace_id(trace_id).actor == scope.actor,
        scope.with_trace_id(trace_id).group == scope.group,
        scope.with_trace_id(trace_id).meta == scope.meta,
        scope.with_trace_id(trace_id).permissions == scope.permissions,
        scope.with_trace_id(trace_id).logging_limiter == scope.logging_limiter,
{
}

/// A duplicate that is put under another trace reads the new token, while
/// the scope it was taken from, a value of its own, still reads the token
/// that both had. The two go on holding the same policy store and the same
/// limiter.
pub proof fn duplicate_keeps_own_trace(scope: ScopeView, duplicate: ScopeView, trace_id: TraceId)
    requires
        duplicate == scope,
    ensures
        duplicate.with_trace_id(trace_id).trace_id == trace_id,
        scope.trace_id == duplicate.trace_id,
        duplicate.with_trace_id(trace_id).permissions == scope.permissions,
        duplicate.with_trace_id(trace_id).logging_limiter == scope.logging_limiter,
{
}

/// While a scope is installed a reader of the registry is given its
/// identity; once the work has ended and the registry is as it was before,
/// a reader is given what was there before: nothing, where nothing was
/// installed.
pub proof fn installed_scope_is_exposed(before: Ambient, during: Ambient, after: Ambient, scope: Scope)
    requires
        during.current() == Some(scope),
        after.current() == before.current(),
    ensures
        during.exposed() == Some(scope@),
        after.exposed() == before.exposed(),
        before.current() is None ==> after.exposed() is None,
{
}

} // verus!
