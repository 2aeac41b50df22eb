//! The broker's catalog, and resolution of human-supplied service and plan
//! names to the broker's opaque identifiers.
//!
//! The catalog is fetched fresh for every orchestrated operation; the
//! resolver scans services in catalog order and, within the first service
//! whose name matches and which carries the requested plan, takes the first
//! plan whose name matches. Ambiguous names are resolved to that first
//! occurrence. Resolution fails when no such service exists, or when the
//! match produces an empty identifier; the orchestrators abort on that
//! failure before issuing any mutating call.

use vstd::prelude::*;

verus! {

/// A plan offered by a service, with the broker's opaque identifier.
pub struct Plan {
    pub id: String,
    pub name: String,
}

/// A side-channel API advertised by a service.
pub struct Extension {
    pub id: String,
    pub description: String,
    pub openapi_url: String,
}

impl Extension {
    pub fn new(id: String, description: String, openapi_url: String) -> (r: Extension)
        ensures
            r.id == id,
            r.description == description,
            r.openapi_url == openapi_url,
    {
        Extension { id, description, openapi_url }
    }
}

/// Features a service may require from the platform.
#[derive(Clone, Copy, PartialEq, Eq, Structural, Debug)]
pub enum Requires {
    SyslogDrain,
    RouteForwarding,
    VolumeMount,
}

/// A service offering as advertised by the broker's catalog.
pub struct Service {
    pub name: String,
    pub id: String,
    pub description: String,
    pub tags: Option<Vec<String>>,
    pub requires: Option<Requires>,
    pub bindable: bool,
    pub plan_updateable: Option<bool>,
    pub plans: Vec<Plan>,
    pub extensions: Option<Vec<Extension>>,
}

impl Service {
    pub fn new(name: String, id: String, description: String, bindable: bool, plans: Vec<Plan>)
        -> (r: Service)
        ensures
            r.name == name,
            r.id == id,
            r.description == description,
            r.bindable == bindable,
            r.plans == plans,
            r.tags is None,
            r.requires is None,
            r.plan_updateable is None,
            r.extensions is None,
    {
        Service {
            name,
            id,
            description,
            tags: None,
            requires: None,
            bindable,
            plan_updateable: None,
            plans,
            extensions: None,
        }
    }
}

/// One fetch of the broker's advertised services.
pub struct Catalog {
    pub services: Vec<Service>,
}

/// Whether `s` is named `sname` and offers a plan named `pname`.
pub open spec fn full_match(s: Service, sname: Seq<char>, pname: Seq<char>) -> bool {
    s.name@ == sname && exists|j: int| 0 <= j < s.plans@.len() && s.plans@[j].name@ == pname
}

pub open spec fn has_full_match(services: Seq<Service>, sname: Seq<char>, pname: Seq<char>) -> bool {
    exists|i: int| 0 <= i < services.len() && full_match(services[i], sname, pname)
}

/// Index of the first service that fully matches, or `services.len()`.
pub open spec fn first_full_match(services: Seq<Service>, sname: Seq<char>, pname: Seq<char>) -> int
    decreases services.len(),
{
    if services.len() == 0 {
        0
    } else if full_match(services[0], sname, pname) {
        0
    } else {
        1 + first_full_match(services.drop_first(), sname, pname)
    }
}

/// Index of the first plan named `pname`, or `plans.len()`.
pub open spec fn first_plan(plans: Seq<Plan>, pname: Seq<char>) -> int
    decreases plans.len(),
{
    if plans.len() == 0 {
        0
    } else if plans[0].name@ == pname {
        0
    } else {
        1 + first_plan(plans.drop_first(), pname)
    }
}

/// The identifier pair that resolution yields: those of the first matching
/// service and of its first matching plan, unless either identifier is
/// empty, in which case resolution fails.
pub open spec fn resolve_spec(services: Seq<Service>, sname: Seq<char>, pname: Seq<char>) -> Option<
    (Seq<char>, Seq<char>),
> {
    if has_full_match(services, sname, pname) {
        let s = services[first_full_match(services, sname, pname)];
        let p = s.plans@[first_plan(s.plans@, pname)];
        if s.id@.len() > 0 && p.id@.len() > 0 {
            Some((s.id@, p.id@))
        } else {
            None
        }
    } else {
        None
    }
}

pub proof fn lemma_first_plan_bounds(plans: Seq<Plan>, pname: Seq<char>)
    ensures
        0 <= first_plan(plans, pname) <= plans.len(),
        (exists|j: int| 0 <= j < plans.len() && plans[j].name@ == pname) <==> first_plan(
            plans,
            pname,
        ) < plans.len(),
        first_plan(plans, pname) < plans.len() ==> plans[first_plan(plans, pname)].name@ == pname,
        forall|j: int| 0 <= j < first_plan(plans, pname) ==> plans[j].name@ != pname,
    decreases plans.len(),
{
    if plans.len() > 0 && plans[0].name@ != pname {
        lemma_first_plan_bounds(plans.drop_first(), pname);
        assert forall|j: int| 0 <= j < first_plan(plans, pname) implies plans[j].name@ != pname by {
            if j > 0 {
                assert(plans.drop_first()[j - 1].name@ != pname);
            }
        }
        if exists|j: int| 0 <= j < plans.len() && plans[j].name@ == pname {
            let j = choose|j: int| 0 <= j < plans.len() && plans[j].name@ == pname;
            assert(plans.drop_first()[j - 1].name@ == pname);
        }
        if exists|j: int| 0 <= j < plans.drop_first().len() && plans.drop_first()[j].name@
            == pname {
            let j = choose|j: int|
                0 <= j < plans.drop_first().len() && plans.drop_first()[j].name@ == pname;
            assert(plans[j + 1].name@ == pname);
        }
    }
}

pub proof fn lemma_first_full_match_bounds(services: Seq<Service>, sname: Seq<char>, pname: Seq<char>)
    ensures
        0 <= first_full_match(services, sname, pname) <= services.len(),
        has_full_match(services, sname, pname) <==> first_full_match(services, sname, pname)
            < services.len(),
        first_full_match(services, sname, pname) < services.len() ==> full_match(
            services[first_full_match(services, sname, pname)],
            sname,
            pname,
        ),
        forall|i: int|
            0 <= i < first_full_match(services, sname, pname) ==> !full_match(
                services[i],
                sname,
                pname,
            ),
    decreases services.len(),
{
    if services.len() > 0 && !full_match(services[0], sname, pname) {
        lemma_first_full_match_bounds(services.drop_first(), sname, pname);
        assert forall|i: int| 0 <= i < first_full_match(services, sname, pname) implies !full_match(
            services[i],
            sname,
            pname,
        ) by {
            if i > 0 {
                assert(!full_match(services.drop_first()[i - 1], sname, pname));
            }
        }
        if has_full_match(services, sname, pname) {
            let i = choose|i: int| 0 <= i < services.len() && full_match(services[i], sname, pname);
            assert(full_match(services.drop_first()[i - 1], sname, pname));
        }
        if has_full_match(services.drop_first(), sname, pname) {
            let i = choose|i: int|
                0 <= i < services.drop_first().len() && full_match(
                    services.drop_first()[i],
                    sname,
                    pname,
                );
            assert(full_match(services[i + 1], sname, pname));
        }
    }
}

/// Resolution failure: no service of the requested name offers the requested
/// plan, or the match carries an empty identifier.
#[derive(Clone, Copy, PartialEq, Eq, Structural, Debug)]
pub enum ResolveError {
    NotFound,
}

impl ResolveError {
    pub fn message(&self) -> (s: String)
        ensures
            s@ == "plan or service not found"@,
    {
        "plan or service not found".to_owned()
    }
}

/// Resolves a (service name, plan name) pair against one catalog fetch to
/// the broker's (service_id, plan_id) pair; the first full match wins.
pub fn find_service_plan_id(catalog: &Catalog, service: &String, plan: &String) -> (r: Result<
    (String, String),
    ResolveError,
>)
    ensures
        match r {
            Ok(ids) => resolve_spec(catalog.services@, service@, plan@) == Some((ids.0@, ids.1@)),
            Err(e) => resolve_spec(catalog.services@, service@, plan@) is None && e
                == ResolveError::NotFound,
        },
{
    let ghost services = catalog.services@;
    let n = catalog.services.len();
    let mut i: usize = 0;
    while i < n
        invariant
            i <= n,
            n == services.len(),
            services == catalog.services@,
            forall|w: int| 0 <= w < i ==> !full_match(services[w], service@, plan@),
        decreases n - i,
    {
        let s = &catalog.services[i];
        if s.name == *service {
            let m = s.plans.len();
            let mut j: usize = 0;
            while j < m
                invariant
                    j <= m,
                    m == s.plans@.len(),
                    s == &catalog.services[i as int],
                    i < n,
                    n == services.len(),
                    services == catalog.services@,
                    s.name@ == service@,
                    forall|w: int| 0 <= w < i ==> !full_match(services[w], service@, plan@),
                    forall|w: int| 0 <= w < j ==> s.plans@[w].name@ != plan@,
                decreases m - j,
            {
                if s.plans[j].name == *plan {
                    proof {
                        lemma_first_plan_bounds(s.plans@, plan@);
                        assert(first_plan(s.plans@, plan@) == j) by {
                            if first_plan(s.plans@, plan@) < j {
                                assert(s.plans@[first_plan(s.plans@, plan@)].name@ == plan@);
                            }
                        }
                        assert(full_match(services[i as int], service@, plan@));
                        lemma_first_full_match_bounds(services, service@, plan@);
                        assert(first_full_match(services, service@, plan@) == i) by {
                            if first_full_match(services, service@, plan@) < i {
                                assert(full_match(
                                    services[first_full_match(services, service@, plan@)],
                                    service@,
                                    plan@,
                                ));
                            }
                        }
                    }
                    let service_id = &s.id;
                    let plan_id = &s.plans[j].id;
                    if service_id.as_str().is_empty() || plan_id.as_str().is_empty() {
                        return Err(ResolveError::NotFound);
                    }
                    return Ok((service_id.clone(), plan_id.clone()));
                }
                j += 1;
            }
            proof {
                assert(!full_match(services[i as int], service@, plan@));
            }
        } else {
            proof {
                assert(!full_match(services[i as int], service@, plan@));
            }
        }
        i += 1;
    }
    proof {
        assert(!has_full_match(services, service@, plan@));
    }
    Err(ResolveError::NotFound)
}

/// A catalog that contains a service named `sname` carrying a plan named
/// `pname` resolves to exactly that pair of identifiers: those of the first
/// such service and of its first plan of that name, provided neither
/// identifier is empty.
pub proof fn lemma_resolve_present(
    services: Seq<Service>,
    sname: Seq<char>,
    pname: Seq<char>,
    i: int,
    j: int,
)
    requires
        0 <= i < services.len(),
        full_match(services[i], sname, pname),
        forall|w: int| 0 <= w < i ==> !full_match(#[trigger] services[w], sname, pname),
        0 <= j < services[i].plans@.len(),
        services[i].plans@[j].name@ == pname,
        forall|w: int| 0 <= w < j ==> services[i].plans@[w].name@ != pname,
        services[i].id@.len() > 0,
        services[i].plans@[j].id@.len() > 0,
    ensures
        resolve_spec(services, sname, pname) == Some((services[i].id@, services[i].plans@[j].id@)),
{
    lemma_first_full_match_bounds(services, sname, pname);
    assert(first_full_match(services, sname, pname) == i) by {
        if first_full_match(services, sname, pname) < i {
            assert(full_match(services[first_full_match(services, sname, pname)], sname, pname));
        }
    }
    lemma_first_plan_bounds(services[i].plans@, pname);
    assert(first_plan(services[i].plans@, pname) == j) by {
        if first_plan(services[i].plans@, pname) < j {
            assert(services[i].plans@[first_plan(services[i].plans@, pname)].name@ == pname);
        }
    }
}

/// A catalog with no service named `sname` carrying a plan named `pname`
/// resolves to nothing.
pub proof fn lemma_resolve_absent(services: Seq<Service>, sname: Seq<char>, pname: Seq<char>)
    requires
        forall|i: int| 0 <= i < services.len() ==> !full_match(#[trigger] services[i], sname, pname),
    ensures
        resolve_spec(services, sname, pname) is None,
{
    assert(!has_full_match(services, sname, pname));
}

} // verus!
