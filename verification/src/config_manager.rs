//! The rules of the configuration and dependency managers: how a stored
//! configuration is updated or looked up, and how dependencies are recorded,
//! found and removed.

use crate::error::Error;
use crate::models::{ServiceConfig, ServiceDependency, ServiceRecord};
use crate::protocol::{ServiceConfigPayload, ServiceRef};
use crate::text::{chars_of, string_of};
use vstd::prelude::*;

verus! {

broadcast use vstd::string::group_string_axioms;

fn generic_error(s: &str) -> (r: Error)
    ensures
        r matches Error::Generic(m) && m@ == s@,
{
    Error::Generic(string_of(chars_of(s).as_slice()))
}

/// The configuration stored by an update: the existing one, keeping its id,
/// or a new one, with the file name, format and run command of the request.
pub fn updated_config(existing: Option<ServiceConfig>, payload: &ServiceConfigPayload) -> (r:
    ServiceConfig)
    ensures
        r.id == (match existing {
            Some(e) => e.id,
            None => None,
        }),
        r.filename@ == payload.filename@,
        r.format == payload.format,
        r.run_command matches Some(c) && c@ == payload.run_command@,
{
    let filename = string_of(chars_of(payload.filename.as_str()).as_slice());
    let run_command = Some(string_of(chars_of(payload.run_command.as_str()).as_slice()));
    match existing {
        Some(mut e) => {
            e.filename = filename;
            e.format = payload.format;
            e.run_command = run_command;
            e
        },
        None => ServiceConfig::new(filename, payload.format, run_command),
    }
}

/// The configuration id a service gets after its configuration is saved: the
/// saved id when it had none (the service is then saved again), else none
/// (the service keeps its link).
pub fn config_link(current: Option<i64>, saved: Option<i64>) -> (r: Option<Option<i64>>)
    ensures
        r == (if current is None {
            Some(saved)
        } else {
            None::<Option<i64>>
        }),
{
    match current {
        None => Some(saved),
        Some(_) => None,
    }
}

/// The configuration id of the service that a lookup found, or why there is
/// none.
pub fn config_id_of(service: Option<ServiceRecord>) -> (r: Result<i64, Error>)
    ensures
        match service {
            None => r matches Err(Error::Generic(m)) && m@ == "No service found"@,
            Some(s) => match s.config_id {
                None => r matches Err(Error::Generic(m)) && m@ == "Service has no configuration"@,
                Some(id) => r matches Ok(i) && i == id,
            },
        },
{
    match service {
        None => Err(generic_error("No service found")),
        Some(s) => match s.config_id {
            None => Err(generic_error("Service has no configuration")),
            Some(id) => Ok(id),
        },
    }
}

/// The configuration sent for a service, or the error that it is missing.
pub fn config_payload_of(config: Option<ServiceConfig>, service: ServiceRef) -> (r: Result<
    ServiceConfigPayload,
    Error,
>)
    ensures
        match config {
            None => r matches Err(Error::Generic(m)) && m@ == "Service config was not found"@,
            Some(c) => r matches Ok(p) && p.service == service && p.filename@ == c.filename@
                && p.format == c.format && p.run_command@ == (match c.run_command {
                Some(rc) => rc@,
                None => Seq::<char>::empty(),
            }),
        },
{
    match config {
        None => Err(generic_error("Service config was not found")),
        Some(c) => Ok(c.to_payload(service)),
    }
}

/// The dependency recorded when `service_id` comes to depend on
/// `dependent_service_id`; its id is given by the database.
pub fn dependency_record(service_id: i64, dependent_service_id: i64, tunnel_enabled: bool) -> (r:
    ServiceDependency)
    ensures
        r == (ServiceDependency { id: 0, service_id, dependent_service_id, tunnel_enabled }),
{
    ServiceDependency { id: 0, service_id, dependent_service_id, tunnel_enabled }
}

/// The id of the first of a service's dependencies on `dependent_service_id`,
/// or the error that there is none.
pub fn dependency_to_remove(deps: &Vec<ServiceDependency>, dependent_service_id: i64) -> (r: Result<
    i64,
    Error,
>)
    ensures
        match r {
            Ok(id) => exists|k: int|
                0 <= k < deps@.len() && deps@[k].dependent_service_id == dependent_service_id
                    && deps@[k].id == id && forall|j: int|
                    0 <= j < k ==> (#[trigger] deps@[j]).dependent_service_id
                        != dependent_service_id,
            Err(e) => (e matches Error::Generic(m) && m@ == "No dependency found for this service"@)
                && forall|j: int|
                0 <= j < deps@.len() ==> (#[trigger] deps@[j]).dependent_service_id
                    != dependent_service_id,
        },
{
    let mut i: usize = 0;
    while i < deps.len()
        invariant
            i <= deps@.len(),
            forall|j: int|
                0 <= j < i ==> (#[trigger] deps@[j]).dependent_service_id != dependent_service_id,
        decreases deps@.len() - i,
    {
        if deps[i].dependent_service_id == dependent_service_id {
            return Ok(deps[i].id);
        }
        i = i + 1;
    }
    Err(generic_error("No dependency found for this service"))
}

/// The ids of the dependency rows of a service, in order, deleted with it.
pub fn dependency_ids(deps: &Vec<ServiceDependency>) -> (r: Vec<i64>)
    ensures
        r@ == deps@.map_values(|d: ServiceDependency| d.id),
{
    let mut ids: Vec<i64> = Vec::new();
    let mut i: usize = 0;
    while i < deps.len()
        invariant
            i <= deps@.len(),
            ids@ == deps@.take(i as int).map_values(|d: ServiceDependency| d.id),
        decreases deps@.len() - i,
    {
        ids.push(deps[i].id);
        assert(deps@.take(i + 1).map_values(|d: ServiceDependency| d.id) =~= deps@.take(
            i as int,
        ).map_values(|d: ServiceDependency| d.id).push(deps@[i as int].id));
        i = i + 1;
    }
    assert(deps@.take(deps@.len() as int) =~= deps@);
    ids
}

/// The service whose dependencies are listed, or the error that none was found.
pub fn service_for_dependencies(service: Option<ServiceRecord>) -> (r: Result<ServiceRecord, Error>)
    ensures
        match service {
            None => r matches Err(Error::Generic(m)) && m@ == "No service with this name or id"@,
            Some(s) => r matches Ok(t) && t == s,
        },
{
    match service {
        None => Err(generic_error("No service with this name or id")),
        Some(s) => Ok(s),
    }
}

// ---------------------------------------------------------------------------
// Refusing circular and repeated dependencies
// ---------------------------------------------------------------------------

/// The services in `s` and those that a service of `s` depends on directly.
pub open spec fn reach_step(edges: Seq<ServiceDependency>, s: Set<i64>) -> Set<i64> {
    s.union(
        Set::new(
            |y: i64|
                exists|i: int|
                    0 <= i < edges.len() && s.contains(#[trigger] edges[i].service_id)
                        && edges[i].dependent_service_id == y,
        ),
    )
}

/// The services reached from `start` through chains of at most `k` dependencies.
pub open spec fn reach_within(edges: Seq<ServiceDependency>, start: i64, k: nat) -> Set<i64>
    decreases k,
{
    if k == 0 {
        set![start]
    } else {
        reach_step(edges, reach_within(edges, start, (k - 1) as nat))
    }
}

/// Whether `from` depends on `to`, itself or through a chain of
/// dependencies; a chain with no repeated link is never longer than the
/// number of dependencies, so chains up to that length are enough.
pub open spec fn depends_on(edges: Seq<ServiceDependency>, from: i64, to: i64) -> bool {
    reach_within(edges, from, edges.len()).contains(to)
}

fn contains_id(v: &Vec<i64>, x: i64) -> (r: bool)
    ensures
        r == v@.contains(x),
{
    let mut i: usize = 0;
    while i < v.len()
        invariant
            i <= v@.len(),
            forall|k: int| 0 <= k < i ==> v@[k] != x,
        decreases v@.len() - i,
    {
        if v[i] == x {
            assert(v@[i as int] == x);
            return true;
        }
        i = i + 1;
    }
    false
}

/// Whether one of the first `j` dependencies leads from a service of `s` to `y`.
pub open spec fn added_by(edges: Seq<ServiceDependency>, s: Set<i64>, j: int, y: i64) -> bool {
    exists|i: int|
        0 <= i < j && s.contains(#[trigger] edges[i].service_id) && edges[i].dependent_service_id
            == y
}

proof fn lemma_added_by_next(edges: Seq<ServiceDependency>, s: Set<i64>, j: int, y: i64)
    requires
        0 <= j < edges.len(),
    ensures
        added_by(edges, s, j + 1, y) == (added_by(edges, s, j, y) || (s.contains(
            edges[j].service_id,
        ) && edges[j].dependent_service_id == y)),
{
    if added_by(edges, s, j + 1, y) {
        let i = choose|i: int|
            0 <= i < j + 1 && s.contains(#[trigger] edges[i].service_id)
                && edges[i].dependent_service_id == y;
        if i < j {
            assert(added_by(edges, s, j, y));
        }
    }
    if added_by(edges, s, j, y) {
        let i = choose|i: int|
            0 <= i < j && s.contains(#[trigger] edges[i].service_id) && edges[i].dependent_service_id
                == y;
        assert(0 <= i < j + 1 && s.contains(edges[i].service_id));
    }
    if s.contains(edges[j].service_id) && edges[j].dependent_service_id == y {
        assert(0 <= j < j + 1 && s.contains(edges[j].service_id));
    }
}

proof fn lemma_reach_step_added(edges: Seq<ServiceDependency>, s: Set<i64>, y: i64)
    ensures
        reach_step(edges, s).contains(y) == (s.contains(y) || added_by(edges, s, edges.len() as int, y)),
{
}

/// One round of following dependencies: the services of `cur` and those
/// they depend on directly.
fn step_round(edges: &Vec<ServiceDependency>, cur: &Vec<i64>) -> (next: Vec<i64>)
    ensures
        forall|y: i64| next@.contains(y) <==> #[trigger] reach_step(edges@, cur@.to_set()).contains(y),
{
    let ghost s = cur@.to_set();
    let mut next: Vec<i64> = Vec::new();
    let mut k: usize = 0;
    while k < cur.len()
        invariant
            k <= cur@.len(),
            next@ == cur@.take(k as int),
        decreases cur@.len() - k,
    {
        next.push(cur[k]);
        assert(next@ =~= cur@.take(k + 1));
        k = k + 1;
    }
    assert(next@ =~= cur@);
    assert forall|y: i64| #[trigger] next@.contains(y) <==> (s.contains(y) || added_by(edges@, s, 0, y)) by {
    }
    let mut j: usize = 0;
    while j < edges.len()
        invariant
            j <= edges@.len(),
            s == cur@.to_set(),
            forall|y: i64| #[trigger] next@.contains(y) <==> (s.contains(y) || added_by(edges@, s, j as int, y)),
        decreases edges@.len() - j,
    {
        let e = edges[j];
        let from_cur = contains_id(cur, e.service_id);
        assert(from_cur == s.contains(e.service_id));
        let ghost before = next@;
        if from_cur && !contains_id(&next, e.dependent_service_id) {
            next.push(e.dependent_service_id);
        }
        assert forall|y: i64| #[trigger] next@.contains(y) <==> (s.contains(y) || added_by(edges@, s, j + 1, y)) by {
            lemma_added_by_next(edges@, s, j as int, y);
            assert(before.contains(y) <==> (s.contains(y) || added_by(edges@, s, j as int, y)));
            if next@.len() > before.len() {
                assert(next@ == before.push(e.dependent_service_id));
                if next@.contains(y) && !before.contains(y) {
                    let q = choose|q: int| 0 <= q < next@.len() && next@[q] == y;
                    if q < before.len() {
                        assert(before[q] == y);
                    }
                }
                if before.contains(y) {
                    let q = choose|q: int| 0 <= q < before.len() && before[q] == y;
                    assert(next@[q] == y);
                }
                if y == e.dependent_service_id {
                    assert(next@[before.len() as int] == y);
                }
            }
        }
        j = j + 1;
    }
    assert forall|y: i64| next@.contains(y) <==> #[trigger] reach_step(edges@, cur@.to_set()).contains(y) by {
        lemma_reach_step_added(edges@, s, y);
    }
    next
}

/// The services that `start` depends on, itself included, through chains
/// of at most as many dependencies as there are.
pub fn reachable_from(edges: &Vec<ServiceDependency>, start: i64) -> (r: Vec<i64>)
    ensures
        forall|y: i64| r@.contains(y) <==> #[trigger] depends_on(edges@, start, y),
{
    let mut cur: Vec<i64> = Vec::new();
    cur.push(start);
    proof {
        assert forall|y: i64| cur@.contains(y) <==> #[trigger] reach_within(edges@, start, 0).contains(y) by {
            if y == start {
                assert(cur@[0] == y);
            }
        }
    }
    let mut k: usize = 0;
    while k < edges.len()
        invariant
            k <= edges@.len(),
            forall|y: i64| cur@.contains(y) <==> #[trigger] reach_within(edges@, start, k as nat).contains(y),
        decreases edges@.len() - k,
    {
        let next = step_round(edges, &cur);
        proof {
            assert(cur@.to_set() =~= reach_within(edges@, start, k as nat)) by {
                assert forall|y: i64| cur@.to_set().contains(y) <==> reach_within(edges@, start, k as nat).contains(y) by {
                    if cur@.contains(y) {
                        assert(reach_within(edges@, start, k as nat).contains(y));
                    }
                }
            }
            assert forall|y: i64| next@.contains(y) <==> #[trigger] reach_within(edges@, start, (k + 1) as nat).contains(y) by {
                assert(reach_step(edges@, cur@.to_set()).contains(y) == next@.contains(y));
            }
        }
        cur = next;
        k = k + 1;
    }
    cur
}

/// Checks a new dependency of `service_id` on `dependent_service_id`
/// against the existing ones: refused when the dependent service already
/// depends, itself or through others, on the service (a circular
/// dependency), or when the same dependency exists; allowed otherwise.
pub fn check_new_dependency(existing: &Vec<ServiceDependency>, service_id: i64, dependent_service_id: i64)
    -> (r: Result<(), Error>)
    ensures
        depends_on(existing@, dependent_service_id, service_id) ==> (r matches Err(
            Error::Generic(m),
        ) && m@ == "A circular dependency would be created"@),
        !depends_on(existing@, dependent_service_id, service_id) && (exists|i: int|
            0 <= i < existing@.len() && #[trigger] existing@[i].service_id == service_id
                && existing@[i].dependent_service_id == dependent_service_id) ==> (r matches Err(
            Error::Generic(m),
        ) && m@ == "The dependency already exists"@),
        !depends_on(existing@, dependent_service_id, service_id) && !(exists|i: int|
            0 <= i < existing@.len() && #[trigger] existing@[i].service_id == service_id
                && existing@[i].dependent_service_id == dependent_service_id) ==> r is Ok,
{
    let reached = reachable_from(existing, dependent_service_id);
    let circular = contains_id(&reached, service_id);
    assert(circular == depends_on(existing@, dependent_service_id, service_id));
    if circular {
        return Err(generic_error("A circular dependency would be created"));
    }
    let mut i: usize = 0;
    while i < existing.len()
        invariant
            i <= existing@.len(),
            !depends_on(existing@, dependent_service_id, service_id),
            forall|k: int|
                0 <= k < i ==> !(#[trigger] existing@[k].service_id == service_id
                    && existing@[k].dependent_service_id == dependent_service_id),
        decreases existing@.len() - i,
    {
        if existing[i].service_id == service_id && existing[i].dependent_service_id
            == dependent_service_id {
            return Err(generic_error("The dependency already exists"));
        }
        i = i + 1;
    }
    Ok(())
}

} // verus!
