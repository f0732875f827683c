//! The choice of the Dockerfile: a custom one, a bundled one, or one made on the spot.

use crate::config::BuildConfig;
use vstd::prelude::*;

verus! {

/// Where bundled Dockerfiles are looked for.
#[derive(Clone, Copy, Debug, PartialEq, Eq, Structural)]
pub enum SearchBase {
    /// The directory `dockerfiles` beside the executable.
    BesideExecutable,
    /// The directory `dockerfiles` in the current directory.
    Dockerfiles,
    /// The current directory.
    Current,
}

/// A Dockerfile that may exist.
#[derive(Clone, Copy, Debug, PartialEq, Eq, Structural)]
pub enum Candidate {
    /// The configured Dockerfile.
    Custom,
    /// The bundled Dockerfile of the configuration, below the given directory.
    Bundled(SearchBase),
}

/// What the choice of the Dockerfile does next.
#[derive(Clone, Copy, Debug, PartialEq, Eq, Structural)]
pub enum Resolution {
    /// Find out whether this Dockerfile exists.
    Look(Candidate),
    /// Take this Dockerfile.
    Take(Candidate),
    /// The configured Dockerfile does not exist.
    CustomMissing,
    /// There is no Dockerfile to take: make one.
    Generate,
}

/// Where the choice of the Dockerfile starts: a configured Dockerfile is the
/// only candidate, otherwise the bundled ones are.
pub open spec fn first_look(custom: bool) -> Resolution {
    if custom {
        Resolution::Look(Candidate::Custom)
    } else {
        Resolution::Look(Candidate::Bundled(SearchBase::BesideExecutable))
    }
}

/// What follows once it is known whether a candidate exists.
pub open spec fn next_look(candidate: Candidate, exists: bool) -> Resolution {
    if exists {
        Resolution::Take(candidate)
    } else {
        match candidate {
            Candidate::Custom => Resolution::CustomMissing,
            Candidate::Bundled(SearchBase::BesideExecutable) => Resolution::Look(
                Candidate::Bundled(SearchBase::Dockerfiles),
            ),
            Candidate::Bundled(SearchBase::Dockerfiles) => Resolution::Look(
                Candidate::Bundled(SearchBase::Current),
            ),
            Candidate::Bundled(SearchBase::Current) => Resolution::Generate,
        }
    }
}

impl BuildConfig {
    /// Where the choice of the Dockerfile starts.
    pub fn resolve_dockerfile(&self) -> (r: Resolution)
        ensures
            r == first_look(self.dockerfile is Some),
    {
        match self.dockerfile {
            Some(_) => Resolution::Look(Candidate::Custom),
            None => Resolution::Look(Candidate::Bundled(SearchBase::BesideExecutable)),
        }
    }
}

/// What follows once it is known whether a candidate exists.
pub fn after_look(candidate: Candidate, exists: bool) -> (r: Resolution)
    ensures
        r == next_look(candidate, exists),
{
    if exists {
        return Resolution::Take(candidate);
    }
    match candidate {
        Candidate::Custom => Resolution::CustomMissing,
        Candidate::Bundled(base) => match base {
            SearchBase::BesideExecutable => Resolution::Look(
                Candidate::Bundled(SearchBase::Dockerfiles),
            ),
            SearchBase::Dockerfiles => Resolution::Look(Candidate::Bundled(SearchBase::Current)),
            SearchBase::Current => Resolution::Generate,
        },
    }
}

/// What is said where the configured Dockerfile does not exist.
pub fn custom_missing_text(path: &str) -> (r: String)
    ensures
        r@ == "Custom Dockerfile not found: "@ + path@,
{
    "Custom Dockerfile not found: ".to_owned().concat(path)
}

/// How many questions the choice may still ask.
pub open spec fn looks_left(step: Resolution) -> nat {
    match step {
        Resolution::Look(Candidate::Bundled(SearchBase::BesideExecutable)) => 3,
        Resolution::Look(Candidate::Bundled(SearchBase::Dockerfiles)) => 2,
        Resolution::Look(_) => 1,
        _ => 0,
    }
}

/// Where the choice ends, from a step on, when `on_disk` tells which candidates exist.
pub open spec fn choice(step: Resolution, on_disk: spec_fn(Candidate) -> bool) -> Resolution
    decreases looks_left(step),
{
    match step {
        Resolution::Look(candidate) => choice(next_look(candidate, on_disk(candidate)), on_disk),
        other => other,
    }
}

/// A configured Dockerfile is taken where it exists, and nothing stands in for
/// it where it does not.
pub proof fn custom_dockerfile_is_final(on_disk: spec_fn(Candidate) -> bool)
    ensures
        choice(first_look(true), on_disk) == if on_disk(Candidate::Custom) {
            Resolution::Take(Candidate::Custom)
        } else {
            Resolution::CustomMissing
        },
{
    reveal_with_fuel(choice, 2);
}

/// Without a configured Dockerfile the first bundled one that exists is taken,
/// in the order beside the executable, `dockerfiles`, current directory; a
/// Dockerfile is made only where none of them exists.
pub proof fn first_bundled_dockerfile_is_taken(on_disk: spec_fn(Candidate) -> bool)
    ensures
        ({
            let beside = Candidate::Bundled(SearchBase::BesideExecutable);
            let below = Candidate::Bundled(SearchBase::Dockerfiles);
            let here = Candidate::Bundled(SearchBase::Current);
            choice(first_look(false), on_disk) == if on_disk(beside) {
                Resolution::Take(beside)
            } else if on_disk(below) {
                Resolution::Take(below)
            } else if on_disk(here) {
                Resolution::Take(here)
            } else {
                Resolution::Generate
            }
        }),
{
    reveal_with_fuel(choice, 4);
}

} // verus!
