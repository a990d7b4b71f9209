//! Choices the enrich and probe commands make before they call a driver:
//! the job to prepare, the targets it goes to, the seated endpoint, and the
//! catalog probes that are refused.

use vstd::prelude::*;

use crate::paths::path_join;
use crate::text::{chars_of, extend_str, string_of, trim, trim_exec};

verus! {

/// Which job a prepare runs.
#[derive(Clone, Debug, PartialEq, Eq)]
pub enum JobChoice {
    /// The job the operator named, trimmed.
    Given(String),
    /// The generic `enrich` job (all drivers, or no driver named).
    Enrich,
    /// The named driver's default job.
    DriverDefault,
}

pub open spec fn default_job(no_driver: bool, all_drivers: bool) -> JobChoice {
    if all_drivers || no_driver {
        JobChoice::Enrich
    } else {
        JobChoice::DriverDefault
    }
}

/// A named job wins when it is not blank; all drivers, or no driver, runs
/// `enrich`; a single named driver runs its default job.
pub fn resolve_prepare_job(driver: Option<&str>, all_drivers: bool, job: Option<&str>) -> (r:
    JobChoice)
    ensures
        match job {
            Some(j) => if trim(j@).len() > 0 {
                r matches JobChoice::Given(g) && g@ == trim(j@)
            } else {
                r == default_job(driver is None, all_drivers)
            },
            None => r == default_job(driver is None, all_drivers),
        },
        r matches JobChoice::Given(g) ==> job matches Some(j) && g@ == trim(j@) && g@.len() > 0,
{
    if let Some(j) = job {
        let t = trim_exec(&chars_of(j));
        if t.len() > 0 {
            return JobChoice::Given(string_of(&t));
        }
    }
    if all_drivers || driver.is_none() {
        JobChoice::Enrich
    } else {
        JobChoice::DriverDefault
    }
}

/// Where one prepare target writes: a directory, or `None` for the
/// driver's default directory under the state directory.
#[derive(Clone, Debug, PartialEq, Eq)]
pub struct PrepareTarget {
    pub driver: String,
    pub out: Option<String>,
}

/// The prepare targets. With all drivers, one per driver of the job (each
/// under `out/<driver>` when an output parent is given), refused when the
/// job has none; otherwise the named driver, or the default driver, to
/// `out` itself.
pub fn prepare_targets(
    driver: Option<&str>,
    all_drivers: bool,
    out: Option<&str>,
    job_drivers: &Vec<String>,
    default_driver: &str,
) -> (r: Result<Vec<PrepareTarget>, String>)
    ensures
        match r {
            Err(e) => all_drivers && job_drivers@.len() == 0 && e@
                == "refuse:driver: no train/enrich drivers to prepare"@,
            Ok(ts) => if all_drivers {
                &&& job_drivers@.len() > 0
                &&& ts@.len() == job_drivers@.len()
                &&& forall|i: int|
                    0 <= i < ts@.len() ==> (#[trigger] ts@[i]).driver@ == job_drivers@[i]@ && match out {
                        Some(o) => ts@[i].out matches Some(d) && d@ == path_join(o@, job_drivers@[i]@),
                        None => ts@[i].out is None,
                    }
            } else {
                &&& ts@.len() == 1
                &&& ts@[0].driver@ == match driver {
                    Some(d) => d@,
                    None => default_driver@,
                }
                &&& match out {
                    Some(o) => ts@[0].out matches Some(d) && d@ == o@,
                    None => ts@[0].out is None,
                }
            },
        },
{
    if all_drivers {
        let mut ts: Vec<PrepareTarget> = Vec::new();
        for i in 0..job_drivers.len()
            invariant
                ts@.len() == i,
                forall|k: int|
                    0 <= k < i ==> (#[trigger] ts@[k]).driver@ == job_drivers@[k]@ && match out {
                        Some(o) => ts@[k].out matches Some(d) && d@ == path_join(o@, job_drivers@[k]@),
                        None => ts@[k].out is None,
                    },
        {
            let d = &job_drivers[i];
            let dir = match out {
                Some(o) => Some(crate::paths::join_path(o, d.as_str())),
                None => None,
            };
            ts.push(PrepareTarget { driver: string_of(&chars_of(d.as_str())), out: dir });
        }
        if ts.len() == 0 {
            return Err(string_of(&chars_of("refuse:driver: no train/enrich drivers to prepare")));
        }
        return Ok(ts);
    }
    let id = match driver {
        Some(d) => string_of(&chars_of(d)),
        None => string_of(&chars_of(default_driver)),
    };
    let dir = match out {
        Some(o) => Some(string_of(&chars_of(o))),
        None => None,
    };
    let mut ts: Vec<PrepareTarget> = Vec::new();
    ts.push(PrepareTarget { driver: id, out: dir });
    Ok(ts)
}

// ---------------------------------------------------------------- seat

/// The environment variable that names the seated endpoint: the seat's
/// `endpoint_env` parameter when it is a non-blank string, else
/// `CELL_LOCAL_ENDPOINT`.
pub open spec fn endpoint_env(param: Option<Seq<char>>) -> Seq<char> {
    match param {
        Some(p) if trim(p).len() > 0 => trim(p),
        _ => "CELL_LOCAL_ENDPOINT"@,
    }
}

pub fn endpoint_env_name(param: Option<&str>) -> (out: String)
    ensures
        out@ == endpoint_env(match param {
            Some(p) => Some(p@),
            None => None,
        }),
{
    if let Some(p) = param {
        let t = trim_exec(&chars_of(p));
        if t.len() > 0 {
            return string_of(&t);
        }
    }
    string_of(&chars_of("CELL_LOCAL_ENDPOINT"))
}

/// The seated endpoint: the variable's value, trimmed, when it is set and
/// not blank; otherwise the refusal naming the variable.
pub fn seated_endpoint_value(env_name: &str, value: Option<&str>) -> (r: Result<String, String>)
    ensures
        match r {
            Ok(v) => value matches Some(x) && trim(x@).len() > 0 && v@ == trim(x@),
            Err(e) => !(value matches Some(x) && trim(x@).len() > 0) && e@ == "refuse:local-tag: "@
                + env_name@ + " is unset; --verify-local-tag needs the seated endpoint"@,
        },
{
    if let Some(x) = value {
        let t = trim_exec(&chars_of(x));
        if t.len() > 0 {
            return Ok(string_of(&t));
        }
    }
    let mut m = chars_of("refuse:local-tag: ");
    extend_str(&mut m, env_name);
    extend_str(&mut m, " is unset; --verify-local-tag needs the seated endpoint");
    Err(string_of(&m))
}

// ---------------------------------------------------------------- probes

/// A catalog driver probe as the refusal check reads it.
#[derive(Clone, Debug, PartialEq, Eq)]
pub struct ProbeFacts {
    pub driver: String,
    pub host_class: String,
    /// The driver id encodes a hardware SKU.
    pub driver_has_sku: bool,
    /// The host class is one of the portable host classes.
    pub host_class_known: bool,
}

pub open spec fn probe_problem(p: ProbeFacts) -> Option<Seq<char>> {
    if p.driver_has_sku {
        Some("refuse:sku-banned: probe id '"@ + p.driver@ + "' encodes a hardware SKU"@)
    } else if !p.host_class_known {
        Some("refuse:bad-host-class: probe '"@ + p.driver@ + "' host_class '"@ + p.host_class@
            + "' must be consumer-nvidia|apple-silicon|rented-nvidia|any"@)
    } else {
        None
    }
}

/// The first probe problem, in probe order.
pub open spec fn first_probe_problem(ps: Seq<ProbeFacts>) -> Option<Seq<char>>
    decreases ps.len(),
{
    if ps.len() == 0 {
        None
    } else {
        match first_probe_problem(ps.drop_last()) {
            Some(e) => Some(e),
            None => probe_problem(ps.last()),
        }
    }
}

proof fn lemma_probe_prefix(ps: Seq<ProbeFacts>, k: int)
    requires
        0 <= k <= ps.len(),
        first_probe_problem(ps.take(k)) is Some,
    ensures
        first_probe_problem(ps) == first_probe_problem(ps.take(k)),
    decreases ps.len(),
{
    if k == ps.len() {
        assert(ps.take(k) =~= ps);
    } else {
        assert(ps.drop_last().take(k) =~= ps.take(k));
        lemma_probe_prefix(ps.drop_last(), k);
    }
}

/// Refuses the first probe whose id encodes a SKU or whose host class is
/// not a portable class.
pub fn refuse_catalog_probes(probes: &Vec<ProbeFacts>) -> (r: Result<(), String>)
    ensures
        match r {
            Ok(_) => first_probe_problem(probes@) is None,
            Err(e) => first_probe_problem(probes@) == Some(e@),
        },
{
    for i in 0..probes.len()
        invariant
            first_probe_problem(probes@.take(i as int)) is None,
    {
        let p = &probes[i];
        let ghost t = probes@.take(i + 1);
        proof {
            assert(t.drop_last() =~= probes@.take(i as int));
            assert(t.last() == *p);
        }
        if p.driver_has_sku {
            let mut m = chars_of("refuse:sku-banned: probe id '");
            extend_str(&mut m, p.driver.as_str());
            extend_str(&mut m, "' encodes a hardware SKU");
            proof {
                lemma_probe_prefix(probes@, i + 1);
            }
            return Err(string_of(&m));
        }
        if !p.host_class_known {
            let mut m = chars_of("refuse:bad-host-class: probe '");
            extend_str(&mut m, p.driver.as_str());
            extend_str(&mut m, "' host_class '");
            extend_str(&mut m, p.host_class.as_str());
            extend_str(&mut m, "' must be consumer-nvidia|apple-silicon|rented-nvidia|any");
            proof {
                lemma_probe_prefix(probes@, i + 1);
            }
            return Err(string_of(&m));
        }
    }
    assert(probes@.take(probes@.len() as int) =~= probes@);
    Ok(())
}

// ---------------------------------------------------------------- the estate file

/// Whether two byte strings are the same.
pub fn bytes_equal(a: &Vec<u8>, b: &Vec<u8>) -> (r: bool)
    ensures
        r == (a@ == b@),
{
    if a.len() != b.len() {
        return false;
    }
    for i in 0..a.len()
        invariant
            a@.len() == b@.len(),
            a@.take(i as int) == b@.take(i as int),
    {
        if a[i] != b[i] {
            assert(a@[i as int] != b@[i as int]);
            return false;
        }
        assert(a@.take(i + 1) =~= a@.take(i as int).push(a@[i as int]));
        assert(b@.take(i + 1) =~= b@.take(i as int).push(b@[i as int]));
    }
    assert(a@.take(a@.len() as int) =~= a@);
    assert(b@.take(b@.len() as int) =~= b@);
    true
}

/// `enrich import-trained` leaves the estate file as it found it: the
/// bytes read before and after the import must be the same.
pub fn import_trained_untouched(before: &Vec<u8>, after: &Vec<u8>) -> (r: Result<(), String>)
    ensures
        r is Ok <==> before@ == after@,
        r matches Err(e) ==> e@ == "enrich import-trained must not rewrite the estate file"@,
{
    if bytes_equal(before, after) {
        Ok(())
    } else {
        Err(string_of(&chars_of("enrich import-trained must not rewrite the estate file")))
    }
}

/// `enrich apply-proposal` only stages: the source estate's bytes read
/// before and after the proposal is applied must be the same.
pub fn apply_proposal_untouched(before: &Vec<u8>, after: &Vec<u8>) -> (r: Result<(), String>)
    ensures
        r is Ok <==> before@ == after@,
        r matches Err(e) ==> e@ == "enrich apply-proposal must not rewrite the source estate"@,
{
    if bytes_equal(before, after) {
        Ok(())
    } else {
        Err(string_of(&chars_of("enrich apply-proposal must not rewrite the source estate")))
    }
}

} // verus!
