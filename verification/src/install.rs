//! Install-state of a single candidate: which version directories are
//! present, and which version the `current` link names.
//!
//! The state is a model of the on-disk layout `candidates/<candidate>/...`.
//! Callers observe the directory and build a [`CandidateState`]; every
//! decision about it is made here, and mutations come back as a plan the
//! caller mirrors onto the filesystem. A `current` link whose target
//! directory is gone is recoverable: it resolves to nothing and is reported
//! as a warning, never as a failure.

use vstd::prelude::*;

use crate::paths::{spec_version_dir, version_dir};
use crate::registry::{contains_candidate, contains_name};

verus! {

/// The observed install-state of one candidate.
#[derive(Debug, Clone, PartialEq)]
pub struct CandidateState {
    /// Names of the versions whose directories are present.
    pub installed: Vec<String>,
    /// The version the `current` link names, when the link exists. The named
    /// directory may have been removed out-of-band.
    pub current_link: Option<String>,
}

/// Refusal of a (candidate, version) whose version directory is absent.
#[derive(Debug, Clone, PartialEq)]
pub struct NotInstalledError {
    pub candidate: String,
    pub version: String,
}

/// Refusal to remove the current version without force.
#[derive(Debug, Clone, PartialEq)]
pub enum RemovalError {
    RefusedCurrentRemoval,
}

/// The filesystem actions a removal asks its caller to mirror: unlink the
/// `current` link first when flagged, then remove the version directory
/// recursively.
#[derive(Debug, Clone, PartialEq)]
pub struct RemovalPlan {
    pub remove_current_link: bool,
}

impl CandidateState {
    /// No version directory is listed twice.
    pub open spec fn wf(self) -> bool {
        forall|j: int, k: int|
            0 <= j < k < self.installed.deep_view().len() ==> self.installed.deep_view()[j]
                != self.installed.deep_view()[k]
    }

    /// Whether a version directory named `v` is present.
    pub open spec fn spec_has_version(self, v: Seq<char>) -> bool {
        contains_name(self.installed.deep_view(), v)
    }

    /// The version the `current` link resolves to: its target when the
    /// target directory still exists, nothing otherwise.
    pub open spec fn spec_current(self) -> Option<Seq<char>> {
        match self.current_link {
            Some(v) => if self.spec_has_version(v@) {
                Some(v@)
            } else {
                None
            },
            None => None,
        }
    }

    /// Whether the `current` link exists but its target directory is gone.
    pub open spec fn spec_link_broken(self) -> bool {
        match self.current_link {
            Some(v) => !self.spec_has_version(v@),
            None => false,
        }
    }

    /// A candidate with nothing installed and no `current` link.
    pub fn new() -> (r: CandidateState)
        ensures
            r.wf(),
            r.installed.deep_view() == Seq::<Seq<char>>::empty(),
            r.current_link is None,
    {
        let r = CandidateState { installed: Vec::new(), current_link: None };
        proof {
            assert(r.installed.deep_view() =~= Seq::<Seq<char>>::empty());
        }
        r
    }

    /// Whether a version directory named `version` is present.
    pub fn has_version(&self, version: &String) -> (r: bool)
        ensures
            r == self.spec_has_version(version@),
    {
        contains_candidate(&self.installed, version)
    }

    /// The version the `current` link resolves to, and whether the link was
    /// found broken. A broken link resolves to nothing and only raises the
    /// warning flag.
    pub fn resolve_current_link(&self) -> (r: (Option<String>, bool))
        ensures
            r.0.deep_view() == self.spec_current(),
            r.1 == self.spec_link_broken(),
    {
        match &self.current_link {
            None => (None, false),
            Some(v) => {
                if self.has_version(v) {
                    (Some(v.clone()), false)
                } else {
                    (None, true)
                }
            },
        }
    }

    /// Whether `version` is the version the `current` link resolves to.
    pub fn is_current(&self, version: &String) -> (r: bool)
        ensures
            r == (self.spec_current() == Some(version@)),
    {
        match &self.current_link {
            None => false,
            Some(v) => {
                if self.has_version(v) {
                    *v == *version
                } else {
                    false
                }
            },
        }
    }

    /// Records a newly created version directory. The `current` link is not
    /// touched: a fresh install is not current until set so.
    pub fn install_version(&mut self, version: String)
        requires
            old(self).wf(),
        ensures
            final(self).wf(),
            final(self).spec_has_version(version@),
            forall|w: Seq<char>|
                w != version@ ==> (final(self).spec_has_version(w)
                    <==> old(self).spec_has_version(w)),
            final(self).current_link == old(self).current_link,
    {
        if !self.has_version(&version) {
            let ghost pre = self.installed.deep_view();
            self.installed.push(version);
            proof {
                let dv = self.installed.deep_view();
                assert(dv.len() == pre.len() + 1);
                assert(forall|j: int| 0 <= j < pre.len() ==> dv[j] == pre[j]);
                assert(dv[pre.len() as int] == version@);
                assert(final(self).spec_has_version(version@));
            }
        }
    }

    /// Makes `version` the target of the `current` link.
    pub fn set_current(&mut self, version: &String)
        requires
            old(self).wf(),
            old(self).spec_has_version(version@),
        ensures
            final(self).wf(),
            final(self).spec_current() == Some(version@),
            final(self).installed == old(self).installed,
    {
        self.current_link = Some(version.clone());
    }

    /// Removes `version` from the state, refusing to remove the current
    /// version unless `force` is set. On success the returned plan says
    /// whether the caller must unlink the `current` link before removing the
    /// version directory.
    pub fn remove_version(&mut self, version: &String, force: bool) -> (r: Result<
        RemovalPlan,
        RemovalError,
    >)
        requires
            old(self).wf(),
            old(self).spec_has_version(version@),
        ensures
            final(self).wf(),
            r is Err <==> (old(self).spec_current() == Some(version@) && !force),
            r is Err ==> (r matches Err(RemovalError::RefusedCurrentRemoval) && *final(self)
                == *old(self)),
            r is Ok ==> !final(self).spec_has_version(version@),
            r is Ok ==> forall|w: Seq<char>|
                w != version@ ==> (final(self).spec_has_version(w)
                    <==> old(self).spec_has_version(w)),
            r matches Ok(plan) ==> plan.remove_current_link == (old(self).spec_current()
                == Some(version@)),
            (old(self).spec_current() == Some(version@) && force) ==> (r is Ok
                && final(self).spec_current() is None && final(self).current_link is None),
            (r is Ok && old(self).spec_current() != Some(version@)) ==> final(self).spec_current()
                == old(self).spec_current(),
    {
        let was_current = self.is_current(version);
        if was_current && !force {
            return Err(RemovalError::RefusedCurrentRemoval);
        }
        if was_current {
            self.current_link = None;
        }
        let ghost pre = self.installed.deep_view();
        let i = index_of_name(&self.installed, version);
        self.installed.remove(i);
        proof {
            let dv = self.installed.deep_view();
            assert(dv =~= pre.remove(i as int));
            assert(!contains_name(dv, version@)) by {
                assert forall|k: int| 0 <= k < dv.len() implies dv[k] != version@ by {
                    if k < i {
                        assert(dv[k] == pre[k]);
                    } else {
                        assert(dv[k] == pre[k + 1]);
                    }
                }
            }
            assert forall|w: Seq<char>| w != version@ implies (contains_name(dv, w)
                <==> contains_name(pre, w)) by {
                if contains_name(dv, w) {
                    let k = choose|k: int| 0 <= k < dv.len() && dv[k] == w;
                    if k < i {
                        assert(pre[k] == w);
                    } else {
                        assert(pre[k + 1] == w);
                    }
                }
                if contains_name(pre, w) {
                    let k = choose|k: int| 0 <= k < pre.len() && pre[k] == w;
                    if k < i {
                        assert(dv[k] == w);
                    } else {
                        assert(dv[k - 1] == w);
                    }
                }
            }
        }
        Ok(RemovalPlan { remove_current_link: was_current })
    }
}

/// The absolute path the `current` link of `candidate` resolves to, when its
/// target directory still exists, with the broken-link warning passed along.
pub fn resolve_current_link_path(root: &str, candidate: &str, state: &CandidateState) -> (r: (
    Option<String>,
    bool,
))
    ensures
        r.0 is Some <==> state.spec_current() is Some,
        r.0 matches Some(p) ==> (state.spec_current() matches Some(v) && p@ == spec_version_dir(
            root@,
            candidate@,
            v,
        )),
        r.1 == state.spec_link_broken(),
{
    let (current, warn) = state.resolve_current_link();
    match current {
        Some(v) => (Some(version_dir(root, candidate, v.as_str())), warn),
        None => (None, warn),
    }
}

/// The index at which `name` stands in `list`.
fn index_of_name(list: &Vec<String>, name: &String) -> (i: usize)
    requires
        contains_name(list.deep_view(), name@),
    ensures
        i < list.deep_view().len(),
        list.deep_view()[i as int] == name@,
{
    let mut i: usize = 0;
    while i < list.len()
        invariant
            i <= list.deep_view().len(),
            forall|j: int| 0 <= j < i ==> list.deep_view()[j] != name@,
            contains_name(list.deep_view(), name@),
        decreases list.len() - i,
    {
        if list[i] == *name {
            return i;
        }
        i += 1;
    }
    proof {
        assert(false);
    }
    0
}

/// Returns the version directory of `(candidate, version)` when the state
/// shows it installed, and refuses the pair otherwise. Callers must stop on
/// refusal: a removal is never attempted on a version that is not installed.
pub fn validate_version_path(
    root: &str,
    candidate: &str,
    version: &String,
    state: &CandidateState,
) -> (r: Result<String, NotInstalledError>)
    ensures
        r is Ok <==> state.spec_has_version(version@),
        r matches Ok(p) ==> p@ == spec_version_dir(root@, candidate@, version@),
        r matches Err(e) ==> e.candidate@ == candidate@ && e.version@ == version@,
{
    if state.has_version(version) {
        Ok(version_dir(root, candidate, version.as_str()))
    } else {
        Err(
            NotInstalledError {
                candidate: candidate.to_owned(),
                version: version.clone(),
            },
        )
    }
}

} // verus!
