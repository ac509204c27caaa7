//! Locating executables and bundled resources.
//!
//! The runner probes the machine (system-path lookups, existence checks,
//! version queries) and hands the outcomes in as plain values; the
//! functions here make the choice.

use vstd::prelude::*;
use vstd::string::*;

verus! {

/// An executable the supervisor depends on could not be found.
#[derive(Debug, PartialEq, Eq, Structural)]
pub enum LocateError {
    BunNotFound,
    PythonNotFound,
}

impl LocateError {
    /// Report line for the front end.
    pub fn message(&self) -> (r: String)
        ensures
            *self == LocateError::BunNotFound ==> r@ == "Bun executable not found"@,
            *self == LocateError::PythonNotFound ==> r@ == "Python executable not found"@,
    {
        match self {
            LocateError::BunNotFound => String::from_str("Bun executable not found"),
            LocateError::PythonNotFound => String::from_str("Python executable not found"),
        }
    }
}

/// Chooses the JavaScript runtime executable: the system-path lookup wins
/// when it resolved one; otherwise the per-user fallback path is used,
/// provided something exists there; otherwise the runtime is missing.
pub fn resolve_bun(lookup: Option<String>, home: &str, fallback_exists: bool) -> (r: Result<
    String,
    LocateError,
>)
    ensures
        lookup matches Some(p) ==> (r matches Ok(q) && q == p),
        lookup is None && fallback_exists ==> (r matches Ok(q) && q@ == home@ + "/.bun/bin/bun"@),
        lookup is None && !fallback_exists ==> (r matches Err(e) && e == LocateError::BunNotFound),
{
    match lookup {
        Some(p) => Ok(p),
        None => {
            if fallback_exists {
                Ok(crate::paths::bun_fallback_path(home))
            } else {
                Err(LocateError::BunNotFound)
            }
        },
    }
}

/// Interpreter names probed for the Python server, in preference order.
pub fn python_candidates() -> (r: Vec<String>)
    ensures
        r@.len() == 3,
        r@[0]@ == "python3.11"@,
        r@[1]@ == "python3"@,
        r@[2]@ == "python"@,
{
    let mut v: Vec<String> = Vec::new();
    v.push(String::from_str("python3.11"));
    v.push(String::from_str("python3"));
    v.push(String::from_str("python"));
    v
}

/// One probed interpreter candidate: the path the system-path lookup
/// resolved it to, if any, and whether its version query succeeded.
#[derive(Debug, PartialEq, Eq)]
pub struct PythonProbe {
    pub path: Option<String>,
    pub version_ok: bool,
}

/// A candidate is usable when it resolved to a path and answered the
/// version query.
pub open spec fn probe_usable(p: PythonProbe) -> bool {
    p.path is Some && p.version_ok
}

/// Index of the first usable interpreter among the probed candidates,
/// honouring the preference order in which they were probed.
pub fn select_python(probes: &Vec<PythonProbe>) -> (r: Option<usize>)
    ensures
        r matches Some(i) ==> i < probes@.len() && probe_usable(probes@[i as int])
            && (forall|j: int| 0 <= j < i ==> !probe_usable(probes@[j])),
        r is None ==> forall|j: int| 0 <= j < probes@.len() ==> !probe_usable(probes@[j]),
{
    let mut k: usize = 0;
    while k < probes.len()
        invariant
            k <= probes@.len(),
            forall|j: int| 0 <= j < k ==> !probe_usable(probes@[j]),
        decreases probes@.len() - k,
    {
        if probes[k].path.is_some() && probes[k].version_ok {
            return Some(k);
        }
        k += 1;
    }
    None
}

} // verus!
