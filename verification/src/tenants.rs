//! The tenant allowlist and the per-tenant in-flight permits.
//!
//! The allowlist is fixed at build time. An unknown tenant is refused with
//! `PermissionDenied`; a tenant at its in-flight cap with `ResourceExhausted`.
use vstd::prelude::*;
use std::sync::Arc;
use tokio::sync::{OwnedSemaphorePermit, Semaphore, TryAcquireError};

use crate::status::{is_status, joined, ServiceStatus, StatusCode};
use crate::text::str_eq;

verus! {

#[verifier::external_type_specification]
#[verifier::external_body]
pub struct ExSemaphore(Semaphore);

#[verifier::external_type_specification]
#[verifier::external_body]
pub struct ExOwnedSemaphorePermit(OwnedSemaphorePermit);

/// Why a permit could not be taken from a semaphore.
#[derive(Debug, Clone, Copy, PartialEq, Eq, Structural)]
pub enum AcquireFailure {
    /// The semaphore was closed.
    Closed,
    /// Every permit is held.
    NoPermits,
}

/// The number of permits that a semaphore was created with: the limit on how
/// many of its permits can be held at once.
pub uninterp spec fn created_permits(semaphore: Arc<Semaphore>) -> nat;

/// Calls `tokio::sync::Semaphore::new(permits)` and wraps the semaphore in an
/// `Arc`. The `requires` keeps `permits` within `Semaphore::MAX_PERMITS` on
/// every pointer width, above which `new` panics. The contract states that the
/// semaphore is created with `permits` permits, as `Semaphore::new` does; how
/// many are free later lives behind shared mutability and is not stated.
#[verifier::external_body]
fn new_semaphore(permits: usize) -> (r: Arc<Semaphore>)
    requires
        permits <= 0x1FFF_FFFF,
    ensures
        created_permits(r) == permits as nat,
{
    Arc::new(Semaphore::new(permits))
}

/// Calls `Semaphore::try_acquire_owned` on a clone of the `Arc`, mapping
/// `TryAcquireError::Closed` and `TryAcquireError::NoPermits` one to one. The
/// outcome depends on how many permits other holders have taken, so nothing is
/// stated of it.
#[verifier::external_body]
fn try_acquire_permit(semaphore: &Arc<Semaphore>) -> (r: Result<OwnedSemaphorePermit, AcquireFailure>) {
    match Arc::clone(semaphore).try_acquire_owned() {
        Ok(permit) => Ok(permit),
        Err(TryAcquireError::Closed) => Err(AcquireFailure::Closed),
        Err(TryAcquireError::NoPermits) => Err(AcquireFailure::NoPermits),
    }
}

/// `res` is an outcome that taking a permit from `semaphore` can give.
pub closed spec fn is_permit_attempt(semaphore: Arc<Semaphore>, res: Result<OwnedSemaphorePermit, AcquireFailure>) -> bool {
    call_ensures(try_acquire_permit, (&semaphore,), res)
}

/// An allowlisted tenant and its in-flight cap.
#[derive(Clone, Copy, Debug, PartialEq, Eq)]
pub struct Tenant {
    pub slug: &'static str,
    pub max_in_flight: u32,
}

/// The tenant slug that a request was admitted for.
#[derive(Clone, Copy, Debug)]
pub struct TenantSlug(pub &'static str);

/// The allowlist: `quorum-sense` with eight requests in flight.
pub open spec fn spec_tenants() -> Seq<(Seq<char>, u32)> {
    seq![("quorum-sense"@, 8u32)]
}

/// The allowlist as values.
pub fn tenants() -> (r: Vec<Tenant>)
    ensures
        r@.len() == spec_tenants().len(),
        forall|i: int| 0 <= i < r@.len() ==> (#[trigger] r@[i]).slug@ == spec_tenants()[i].0
            && r@[i].max_in_flight == spec_tenants()[i].1,
{
    let mut v: Vec<Tenant> = Vec::new();
    v.push(Tenant { slug: "quorum-sense", max_in_flight: 8 });
    v
}

/// The position of the first allowlist entry in `table` from `start` on whose
/// slug is `slug`.
pub open spec fn find_from(table: Seq<(Seq<char>, u32)>, slug: Seq<char>, start: nat) -> Option<nat>
    decreases table.len() - start,
{
    if start >= table.len() {
        None
    } else if table[start as int].0 == slug {
        Some(start)
    } else {
        find_from(table, slug, start + 1)
    }
}

/// The allowlist position of `slug`, if it is allowlisted.
pub open spec fn tenant_index(slug: Seq<char>) -> Option<nat> {
    find_from(spec_tenants(), slug, 0)
}

/// The in-flight cap of `slug`, if it is allowlisted.
pub open spec fn spec_cap_for(slug: Seq<char>) -> Option<u32> {
    match tenant_index(slug) {
        Some(i) => Some(spec_tenants()[i as int].1),
        None => None,
    }
}

proof fn lemma_find_from_bounds(table: Seq<(Seq<char>, u32)>, slug: Seq<char>, start: nat)
    ensures
        find_from(table, slug, start) matches Some(i) ==> start <= i < table.len() && table[i as int].0 == slug,
    decreases table.len() - start,
{
    if start < table.len() && table[start as int].0 != slug {
        lemma_find_from_bounds(table, slug, start + 1);
    }
}

/// Finds the allowlist position of `slug` in a table that mirrors the allowlist.
fn find_index(slugs: &Vec<&'static str>, slug: &str) -> (r: Option<usize>)
    requires
        slugs@.len() == spec_tenants().len(),
        forall|i: int| 0 <= i < slugs@.len() ==> (#[trigger] slugs@[i])@ == spec_tenants()[i].0,
    ensures
        r matches Some(i) ==> tenant_index(slug@) == Some(i as nat),
        r is None ==> tenant_index(slug@) is None,
{
    let mut i: usize = 0;
    while i < slugs.len()
        invariant
            slugs@.len() == spec_tenants().len(),
            forall|k: int| 0 <= k < slugs@.len() ==> (#[trigger] slugs@[k])@ == spec_tenants()[k].0,
            i <= slugs@.len(),
            tenant_index(slug@) == find_from(spec_tenants(), slug@, i as nat),
        decreases slugs.len() - i,
    {
        if str_eq(slugs[i], slug) {
            return Some(i);
        }
        i = i + 1;
    }
    None
}

impl Tenant {
    /// The in-flight cap of `slug`, or `None` when it is not allowlisted.
    pub fn cap_for(slug: &str) -> (r: Option<u32>)
        ensures
            r == spec_cap_for(slug@),
    {
        match TenantRegistry::lookup(slug) {
            Some(t) => Some(t.max_in_flight),
            None => None,
        }
    }
}

/// The status that a failed permit for `slug` is answered with: no free permit
/// is `ResourceExhausted`, a closed semaphore is `Unavailable`.
pub open spec fn is_acquire_failure_status(s: ServiceStatus, slug: Seq<char>, failure: AcquireFailure) -> bool {
    match failure {
        AcquireFailure::NoPermits => is_status(
            s,
            StatusCode::ResourceExhausted,
            "tenant "@ + slug + " at in-flight cap"@,
        ),
        AcquireFailure::Closed => is_status(s, StatusCode::Unavailable, "tenant "@ + slug + " semaphore closed"@),
    }
}

/// Maps a failed permit for `slug` to the status it is answered with.
pub fn acquire_failure_status(slug: &str, failure: AcquireFailure) -> (r: ServiceStatus)
    ensures
        is_acquire_failure_status(r, slug@, failure),
{
    match failure {
        AcquireFailure::NoPermits => {
            let mut message = joined("tenant ", slug);
            message.append(" at in-flight cap");
            ServiceStatus::new(StatusCode::ResourceExhausted, message)
        },
        AcquireFailure::Closed => {
            let mut message = joined("tenant ", slug);
            message.append(" semaphore closed");
            ServiceStatus::new(StatusCode::Unavailable, message)
        },
    }
}

struct TenantPermits {
    slug: &'static str,
    semaphore: Arc<Semaphore>,
}

/// The runtime allowlist: one in-flight semaphore per allowlisted tenant.
pub struct TenantRegistry {
    permits: Vec<TenantPermits>,
}

impl View for TenantRegistry {
    type V = Seq<(Seq<char>, nat)>;

    /// For each tenant the registry holds permits for, in order: its slug and
    /// the number of permits its semaphore was created with.
    closed spec fn view(&self) -> Seq<(Seq<char>, nat)> {
        Seq::new(
            self.permits@.len(),
            |i: int| (self.permits@[i].slug@, created_permits(self.permits@[i].semaphore)),
        )
    }
}

/// The allowlist as (slug, in-flight cap) pairs, in order.
pub open spec fn allowlisted_entries() -> Seq<(Seq<char>, nat)> {
    Seq::new(spec_tenants().len(), |i: int| (spec_tenants()[i].0, spec_tenants()[i].1 as nat))
}

impl TenantRegistry {
    /// The registry's entries mirror the allowlist, in order, each semaphore
    /// created with its tenant's cap.
    #[verifier::type_invariant]
    closed spec fn mirrors_allowlist(self) -> bool {
        &&& self.permits@.len() == spec_tenants().len()
        &&& forall|i: int| 0 <= i < self.permits@.len() ==> (#[trigger] self.permits@[i]).slug@
            == spec_tenants()[i].0 && created_permits(self.permits@[i].semaphore) == spec_tenants()[i].1 as nat
    }

    /// The in-flight semaphore of the tenant at allowlist position `k`.
    pub closed spec fn tenant_semaphore(self, k: int) -> Arc<Semaphore> {
        self.permits@[k].semaphore
    }

    /// A registry with one semaphore per allowlisted tenant, holding as many
    /// permits as the tenant's in-flight cap.
    pub fn from_const() -> (r: Self)
        ensures
            r@ == allowlisted_entries(),
    {
        let table = tenants();
        let mut permits: Vec<TenantPermits> = Vec::new();
        let mut i: usize = 0;
        while i < table.len()
            invariant
                table@.len() == spec_tenants().len(),
                forall|k: int| 0 <= k < table@.len() ==> (#[trigger] table@[k]).slug@
                    == spec_tenants()[k].0 && table@[k].max_in_flight == spec_tenants()[k].1,
                i <= table@.len(),
                permits@.len() == i,
                forall|k: int| 0 <= k < i ==> (#[trigger] permits@[k]).slug@ == spec_tenants()[k].0
                    && created_permits(permits@[k].semaphore) == spec_tenants()[k].1 as nat,
            decreases table.len() - i,
        {
            let t = table[i];
            assert(t.max_in_flight == 8);
            permits.push(TenantPermits { slug: t.slug, semaphore: new_semaphore(t.max_in_flight as usize) });
            i = i + 1;
        }
        let r = TenantRegistry { permits };
        assert(r@ =~= allowlisted_entries());
        r
    }

    /// The allowlisted tenant with slug `slug`, if any.
    pub fn lookup(slug: &str) -> (r: Option<Tenant>)
        ensures
            r is Some <==> tenant_index(slug@) is Some,
            r matches Some(t) ==> t.slug@ == slug@ && spec_cap_for(slug@) == Some(t.max_in_flight),
    {
        let table = tenants();
        let mut slugs: Vec<&'static str> = Vec::new();
        let mut i: usize = 0;
        while i < table.len()
            invariant
                table@.len() == spec_tenants().len(),
                forall|k: int| 0 <= k < table@.len() ==> (#[trigger] table@[k]).slug@
                    == spec_tenants()[k].0 && table@[k].max_in_flight == spec_tenants()[k].1,
                i <= table@.len(),
                slugs@.len() == i,
                forall|k: int| 0 <= k < i ==> (#[trigger] slugs@[k])@ == spec_tenants()[k].0,
            decreases table.len() - i,
        {
            slugs.push(table[i].slug);
            i = i + 1;
        }
        match find_index(&slugs, slug) {
            Some(k) => {
                proof {
                    lemma_find_from_bounds(spec_tenants(), slug@, 0);
                }
                Some(table[k])
            },
            None => None,
        }
    }

    /// Takes one in-flight permit for `slug`. An unknown slug is refused with
    /// `PermissionDenied`; a tenant with no free permit with
    /// `ResourceExhausted`; a closed semaphore with `Unavailable`.
    pub fn acquire(&self, slug: &str) -> (r: Result<OwnedSemaphorePermit, ServiceStatus>)
        ensures
            tenant_index(slug@) is None <==> (r matches Err(s) && s.code == StatusCode::PermissionDenied),
            tenant_index(slug@) is None ==> (r matches Err(s) && is_status(
                s,
                StatusCode::PermissionDenied,
                "unknown tenant: "@ + slug@,
            )),
            tenant_index(slug@) is Some ==> (r matches Err(s) ==> exists|f: AcquireFailure|
                is_acquire_failure_status(s, slug@, f)),
            tenant_index(slug@) matches Some(k) ==> {
                &&& created_permits(self.tenant_semaphore(k as int)) == spec_tenants()[k as int].1 as nat
                &&& exists|res: Result<OwnedSemaphorePermit, AcquireFailure>|
                    #[trigger] is_permit_attempt(self.tenant_semaphore(k as int), res)
                        && match res {
                        Ok(p) => r == Ok::<OwnedSemaphorePermit, ServiceStatus>(p),
                        Err(f) => r matches Err(s) && is_acquire_failure_status(s, slug@, f),
                    }
            },
    {
        proof {
            use_type_invariant(self);
        }
        let mut slugs: Vec<&'static str> = Vec::new();
        let mut i: usize = 0;
        while i < self.permits.len()
            invariant
                self.permits@.len() == spec_tenants().len(),
                forall|k: int| 0 <= k < self.permits@.len() ==> (#[trigger] self.permits@[k]).slug@
                    == spec_tenants()[k].0,
                i <= self.permits@.len(),
                slugs@.len() == i,
                forall|k: int| 0 <= k < i ==> (#[trigger] slugs@[k])@ == spec_tenants()[k].0,
            decreases self.permits.len() - i,
        {
            slugs.push(self.permits[i].slug);
            i = i + 1;
        }
        let k = match find_index(&slugs, slug) {
            Some(k) => k,
            None => {
                return Err(ServiceStatus::new(StatusCode::PermissionDenied, joined("unknown tenant: ", slug)));
            },
        };
        proof {
            lemma_find_from_bounds(spec_tenants(), slug@, 0);
        }
        let taken = try_acquire_permit(&self.permits[k].semaphore);
        assert(is_permit_attempt(self.tenant_semaphore(k as int), taken));
        match taken {
            Ok(permit) => Ok(permit),
            Err(failure) => Err(acquire_failure_status(slug, failure)),
        }
    }
}

impl Default for TenantRegistry {
    /// The registry built from the allowlist.
    fn default() -> (r: Self)
        ensures
            r@ == allowlisted_entries(),
    {
        Self::from_const()
    }
}

} // verus!
