//! What a search tool decides before it searches: the technology that a
//! name means, the version to search in, the query to send and the number
//! of results to ask for.

use vstd::prelude::*;
use crate::models::{Technology, TechnologyVersion};
use crate::text::{concat3, join, joined, lowercase, str_eq, to_lowercase};
use crate::versions::{closest_upto, find_closest_index, find_latest_index, newest_upto, version_names};

verus! {

/// Why no version could be chosen.
#[derive(Debug, Clone, Copy, PartialEq, Eq, Structural)]
pub enum VersionFailure {
    /// The technology has no versions.
    NoVersions,
    /// No stored version is close enough to the wanted one.
    NoSuitableVersion,
    /// The wanted version is not stored, and no other was asked for.
    VersionNotFound,
}

/// The index of the first technology whose name is `name`, whatever the
/// case of the letters.
pub open spec fn technology_named(names: Seq<Seq<char>>, name: Seq<char>, from: int) -> Option<int>
    decreases names.len() - from,
{
    if from < 0 || from >= names.len() {
        None
    } else if lowercase(names[from]) == lowercase(name) {
        Some(from)
    } else {
        technology_named(names, name, from + 1)
    }
}

/// The names of a list of technologies.
pub open spec fn technology_names(technologies: Seq<Technology>) -> Seq<Seq<char>> {
    Seq::new(technologies.len(), |i: int| technologies[i].name@)
}

/// Finds a technology by its name, whatever the case of the letters.
pub fn find_technology(technologies: &[Technology], name: &str) -> (r: Option<usize>)
    ensures
        match r {
            Some(i) => i < technologies@.len() && technology_named(
                technology_names(technologies@),
                name@,
                0,
            ) == Some(i as int),
            None => technology_named(technology_names(technologies@), name@, 0) is None,
        },
{
    let wanted = to_lowercase(name);
    let ghost names = technology_names(technologies@);
    let mut i: usize = 0;
    while i < technologies.len()
        invariant
            i <= technologies@.len(),
            names == technology_names(technologies@),
            wanted@ == lowercase(name@),
            technology_named(names, name@, 0) == technology_named(names, name@, i as int),
        decreases technologies@.len() - i,
    {
        assert(names[i as int] == technologies@[i as int].name@);
        let have = to_lowercase(technologies[i].name.as_str());
        if str_eq(have.as_str(), wanted.as_str()) {
            return Some(i);
        }
        i += 1;
    }
    None
}

/// The index of the first version with exactly this name.
pub open spec fn version_named(names: Seq<Seq<char>>, name: Seq<char>, from: int) -> Option<int>
    decreases names.len() - from,
{
    if from < 0 || from >= names.len() {
        None
    } else if names[from] == name {
        Some(from)
    } else {
        version_named(names, name, from + 1)
    }
}

/// The version to search in: the wanted one where it is stored; else,
/// unless that is declined, the stored version closest to it; and where
/// none is wanted, the newest.
pub open spec fn chosen_version(
    names: Seq<Seq<char>>,
    requested: Option<Seq<char>>,
    next_closest: Option<bool>,
    resolve_upwards: Option<bool>,
) -> Result<int, VersionFailure> {
    if names.len() == 0 {
        Err(VersionFailure::NoVersions)
    } else {
        match requested {
            Some(wanted) => match version_named(names, wanted, 0) {
                Some(i) => Ok(i),
                None => if next_closest != Some(false) {
                    match closest_upto(names, wanted, resolve_upwards != Some(false), names.len()) {
                        Some(i) => Ok(i),
                        None => Err(VersionFailure::NoSuitableVersion),
                    }
                } else {
                    Err(VersionFailure::VersionNotFound)
                },
            },
            None => match newest_upto(names, names.len()) {
                Some(i) => Ok(i),
                None => Err(VersionFailure::NoVersions),
            },
        }
    }
}

/// Chooses the version to search in. Returns its index.
pub fn select_version(
    versions: &[TechnologyVersion],
    requested: Option<&str>,
    next_closest: Option<bool>,
    resolve_upwards: Option<bool>,
) -> (r: Result<usize, VersionFailure>)
    ensures
        match r {
            Ok(i) => i < versions@.len() && chosen_version(
                version_names(versions@),
                match requested {
                    Some(w) => Some(w@),
                    None => None,
                },
                next_closest,
                resolve_upwards,
            ) == Ok::<int, VersionFailure>(i as int),
            Err(e) => chosen_version(
                version_names(versions@),
                match requested {
                    Some(w) => Some(w@),
                    None => None,
                },
                next_closest,
                resolve_upwards,
            ) == Err::<int, VersionFailure>(e),
        },
{
    if versions.len() == 0 {
        return Err(VersionFailure::NoVersions);
    }
    let ghost names = version_names(versions@);
    match requested {
        Some(wanted) => {
            let mut i: usize = 0;
            while i < versions.len()
                invariant
                    i <= versions@.len(),
                    versions@.len() > 0,
                    requested == Some(wanted),
                    names == version_names(versions@),
                    version_named(names, wanted@, 0) == version_named(names, wanted@, i as int),
                decreases versions@.len() - i,
            {
                assert(names[i as int] == versions@[i as int].version@);
                if str_eq(versions[i].version.as_str(), wanted) {
                    return Ok(i);
                }
                i += 1;
            }
            let closest = match next_closest {
                Some(b) => b,
                None => true,
            };
            if closest {
                let upwards = match resolve_upwards {
                    Some(b) => b,
                    None => true,
                };
                match find_closest_index(versions, wanted, upwards) {
                    Some(i) => Ok(i),
                    None => Err(VersionFailure::NoSuitableVersion),
                }
            } else {
                Err(VersionFailure::VersionNotFound)
            }
        },
        None => match find_latest_index(versions) {
            Some(i) => Ok(i),
            None => Err(VersionFailure::NoVersions),
        },
    }
}

/// The message that reports why no version could be chosen.
pub open spec fn version_failure_text(
    e: VersionFailure,
    technology: Seq<char>,
    requested: Seq<char>,
) -> Seq<char> {
    match e {
        VersionFailure::NoVersions => "No versions found for technology '"@ + technology + "'"@,
        VersionFailure::NoSuitableVersion => "No suitable version found for technology '"@
            + technology + "' version '"@ + requested + "'"@,
        VersionFailure::VersionNotFound => "Version '"@ + requested
            + "' not found for technology '"@ + technology + "'"@,
    }
}

/// The message that reports why no version could be chosen.
pub fn version_failure_message(e: VersionFailure, technology: &str, requested: &str) -> (r: String)
    ensures
        r@ == version_failure_text(e, technology@, requested@),
{
    match e {
        VersionFailure::NoVersions => concat3("No versions found for technology '", technology, "'"),
        VersionFailure::NoSuitableVersion => {
            let mut m = concat3(
                "No suitable version found for technology '",
                technology,
                "' version '",
            );
            m.append(requested);
            m.append("'");
            m
        },
        VersionFailure::VersionNotFound => {
            let mut m = concat3("Version '", requested, "' not found for technology '");
            m.append(technology);
            m.append("'");
            m
        },
    }
}

/// The message that reports an unknown technology.
pub fn technology_missing_message(name: &str) -> (r: String)
    ensures
        r@ == "Technology '"@ + name@ + "' not found"@,
{
    concat3("Technology '", name, "' not found")
}

/// The text that is searched for: the query, after the code that it is
/// about, where such code is given.
pub open spec fn search_text(code_context: Option<Seq<Seq<char>>>, query: Seq<char>) -> Seq<char> {
    match code_context {
        Some(contexts) => joined(contexts, "\n\n"@) + "\n\nQuery: "@ + query,
        None => query,
    }
}

/// Composes the text that is searched for.
pub fn compose_query(code_context: &Option<Vec<String>>, query: &str) -> (r: String)
    ensures
        r@ == search_text(crate::filter::opt_views(*code_context), query@),
{
    match code_context {
        Some(contexts) => {
            let mut text = join(contexts.as_slice(), "\n\n");
            text.append("\n\nQuery: ");
            text.append(query);
            text
        },
        None => query.to_owned(),
    }
}

/// The number of results to ask for: ten unless another is named.
pub fn result_limit(n: Option<usize>) -> (r: usize)
    ensures
        r == match n {
            Some(k) => k,
            None => 10,
        },
{
    match n {
        Some(k) => k,
        None => 10,
    }
}

} // verus!
