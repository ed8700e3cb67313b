//! The version resolver: decides, for one invocation, the single concrete
//! version string to operate on, or fails informatively.
//!
//! Resolution may need a remote catalog response or a directory observation
//! between decisions, and the library performs no traffic itself. It is
//! therefore a step machine: each call returns either the final result or a
//! request — a URL to fetch or a path to test — and the caller feeds the
//! answer back in as the next event. Every decision between two requests is
//! made and verified here; the caller only ferries answers.

use vstd::prelude::*;

use crate::paths::{joined, spec_joined, spec_version_dir_in, version_dir_in};
use crate::registry::{contains_candidate, contains_name};
use crate::text::{trim, trimmed};

verus! {

/// Everything one resolution depends on, assembled once by the caller:
/// the candidate, what the user asked for, and the environment-derived
/// configuration.
pub struct ResolutionContext {
    /// The candidate to resolve a version for.
    pub candidate: String,
    /// The version the user asked for, if any.
    pub requested: Option<String>,
    /// A local build folder the user pointed at, if any. Its presence makes
    /// an unvalidated version acceptable.
    pub target_folder: Option<String>,
    /// Whether the remote catalog is available.
    pub online: bool,
    /// Base URL of the remote catalog.
    pub api_url: String,
    /// Platform identifier sent to the validation endpoint.
    pub platform: String,
    /// The directory holding one subdirectory per candidate.
    pub candidates_dir: String,
    /// The candidate names the registry loaded.
    pub known_candidates: Vec<String>,
}

/// Why a resolution failed.
#[derive(Debug, Clone, PartialEq)]
pub enum ResolveError {
    /// The version is not in the catalog and no local escape hatch applies.
    UnresolvableVersion { candidate: String, version: String },
    /// Offline, no version given: there is no remote default to fall back
    /// on, and a version is never fabricated.
    VersionRequiredOffline { candidate: String },
    /// Offline, and the candidate is neither installed nor known.
    UnknownCandidate { candidate: String },
    /// A catalog call failed; nothing is retried.
    CatalogUnavailable,
}

/// What the resolver is waiting for.
pub enum Phase {
    /// Nothing happened yet.
    Start,
    /// A default-version fetch is out.
    AwaitingDefault,
    /// A validation fetch for the working version is out.
    AwaitingValidation { version: String },
    /// A check whether the working version's directory exists is out.
    AwaitingVersionDir { version: String },
    /// Offline: a check whether the candidate's directory exists is out.
    AwaitingCandidateDir { version: String },
    /// Resolution ended.
    Complete,
}

/// An answer the caller feeds back: a catalog response body, a failed
/// catalog call, or a directory observation.
pub enum ResolveEvent {
    Response(String),
    NetworkFailed,
    DirCheck(bool),
}

/// What the resolver hands back after each step: a request to perform, or
/// the final result.
#[derive(Debug, PartialEq)]
pub enum ResolveStep {
    /// Perform a blocking GET on this URL and answer with `Response` or
    /// `NetworkFailed`.
    Fetch(String),
    /// Test whether this path is an existing directory and answer with
    /// `DirCheck`.
    CheckDir(String),
    /// The version to operate on.
    Resolved(String),
    /// Resolution failed; nothing more to do.
    Failed(ResolveError),
}

/// One resolution in progress.
pub struct Resolution {
    pub ctx: ResolutionContext,
    pub phase: Phase,
}

/// The URL of the catalog's default-version endpoint for the candidate.
pub open spec fn spec_default_version_url(ctx: ResolutionContext) -> Seq<char> {
    ctx.api_url@ + "/candidates/default/"@ + ctx.candidate@
}

/// The URL of the catalog's validation endpoint for the candidate, a
/// version, and the platform.
pub open spec fn spec_validation_url(ctx: ResolutionContext, version: Seq<char>) -> Seq<char> {
    ctx.api_url@ + "/candidates/validate/"@ + ctx.candidate@ + "/"@ + version + "/"@
        + ctx.platform@
}

/// The URL of the catalog's default-version endpoint for the candidate.
pub fn default_version_url(ctx: &ResolutionContext) -> (r: String)
    ensures
        r@ == spec_default_version_url(*ctx),
{
    let mut r = ctx.api_url.clone();
    r.append("/candidates/default/");
    r.append(ctx.candidate.as_str());
    r
}

/// The URL of the catalog's validation endpoint for the candidate, a
/// version, and the platform.
pub fn validation_url(ctx: &ResolutionContext, version: &str) -> (r: String)
    ensures
        r@ == spec_validation_url(*ctx, version@),
{
    let mut r = ctx.api_url.clone();
    r.append("/candidates/validate/");
    r.append(ctx.candidate.as_str());
    r.append("/");
    r.append(version);
    r.append("/");
    r.append(ctx.platform.as_str());
    r
}

/// Whether an event is an answer to what the phase is waiting for.
pub open spec fn event_matches(phase: Phase, event: ResolveEvent) -> bool {
    match phase {
        Phase::Start => false,
        Phase::AwaitingDefault => event is Response || event is NetworkFailed,
        Phase::AwaitingValidation { .. } => event is Response || event is NetworkFailed,
        Phase::AwaitingVersionDir { .. } => event is DirCheck,
        Phase::AwaitingCandidateDir { .. } => event is DirCheck,
        Phase::Complete => false,
    }
}

/// The transition relation of [`Resolution::start`]: given the context, what
/// the first step and the following phase are.
pub open spec fn start_post(pre: Resolution, post: Resolution, r: ResolveStep) -> bool {
    &&& post.ctx == pre.ctx
    &&& if pre.ctx.online {
        match pre.ctx.requested {
            None => {
                &&& post.phase is AwaitingDefault
                &&& r matches ResolveStep::Fetch(u) && u@ == spec_default_version_url(pre.ctx)
            },
            Some(v) => {
                &&& post.phase matches Phase::AwaitingValidation { version } && version@ == v@
                &&& r matches ResolveStep::Fetch(u) && u@ == spec_validation_url(pre.ctx, v@)
            },
        }
    } else {
        match pre.ctx.requested {
            None => {
                &&& post.phase is Complete
                &&& r matches ResolveStep::Failed(e) && e matches
                    ResolveError::VersionRequiredOffline { candidate } && candidate@
                    == pre.ctx.candidate@
            },
            Some(v) => {
                &&& post.phase matches Phase::AwaitingCandidateDir { version } && version@ == v@
                &&& r matches ResolveStep::CheckDir(p) && p@ == spec_joined(
                    pre.ctx.candidates_dir@,
                    pre.ctx.candidate@,
                )
            },
        }
    }
}

/// The transition relation of [`Resolution::step`]: for each phase and
/// answer, what the next step and the following phase are.
pub open spec fn step_post(
    pre: Resolution,
    event: ResolveEvent,
    post: Resolution,
    r: ResolveStep,
) -> bool {
    &&& post.ctx == pre.ctx
    &&& match (pre.phase, event) {
        (Phase::AwaitingDefault, ResolveEvent::NetworkFailed) => {
            &&& post.phase is Complete
            &&& r matches ResolveStep::Failed(e) && e is CatalogUnavailable
        },
        (Phase::AwaitingValidation { .. }, ResolveEvent::NetworkFailed) => {
            &&& post.phase is Complete
            &&& r matches ResolveStep::Failed(e) && e is CatalogUnavailable
        },
        (Phase::AwaitingDefault, ResolveEvent::Response(body)) => {
            &&& post.phase matches Phase::AwaitingValidation { version } && version@ == trimmed(
                body@,
            )
            &&& r matches ResolveStep::Fetch(u) && u@ == spec_validation_url(
                pre.ctx,
                trimmed(body@),
            )
        },
        (Phase::AwaitingValidation { version }, ResolveEvent::Response(body)) => {
            if trimmed(body@) == "valid"@ || pre.ctx.target_folder is Some {
                &&& post.phase is Complete
                &&& r matches ResolveStep::Resolved(v) && v@ == version@
            } else {
                &&& post.phase matches Phase::AwaitingVersionDir { version: w } && w@ == version@
                &&& r matches ResolveStep::CheckDir(p) && p@ == spec_version_dir_in(
                    pre.ctx.candidates_dir@,
                    pre.ctx.candidate@,
                    version@,
                )
            }
        },
        (Phase::AwaitingVersionDir { version }, ResolveEvent::DirCheck(exists)) => {
            if exists {
                &&& post.phase is Complete
                &&& r matches ResolveStep::Resolved(v) && v@ == version@
            } else {
                &&& post.phase is Complete
                &&& r matches ResolveStep::Failed(e) && e matches
                    ResolveError::UnresolvableVersion { candidate, version: w } && candidate@
                    == pre.ctx.candidate@ && w@ == version@
            }
        },
        (Phase::AwaitingCandidateDir { version }, ResolveEvent::DirCheck(exists)) => {
            if exists {
                &&& post.phase matches Phase::AwaitingVersionDir { version: w } && w@ == version@
                &&& r matches ResolveStep::CheckDir(p) && p@ == spec_version_dir_in(
                    pre.ctx.candidates_dir@,
                    pre.ctx.candidate@,
                    version@,
                )
            } else if contains_name(pre.ctx.known_candidates.deep_view(), pre.ctx.candidate@) {
                &&& post.phase is Complete
                &&& r matches ResolveStep::Failed(e) && e matches
                    ResolveError::UnresolvableVersion { candidate, version: w } && candidate@
                    == pre.ctx.candidate@ && w@ == version@
            } else {
                &&& post.phase is Complete
                &&& r matches ResolveStep::Failed(e) && e matches ResolveError::UnknownCandidate {
                    candidate,
                } && candidate@ == pre.ctx.candidate@
            }
        },
        _ => true,
    }
}

/// The result a completed resolution ends with, over views.
pub enum ResolutionOutcome {
    /// The version to operate on.
    Version(Seq<char>),
    /// Candidate and version that could not be resolved.
    UnresolvableVersion(Seq<char>, Seq<char>),
    /// Offline with no requested version, for this candidate.
    VersionRequiredOffline(Seq<char>),
    /// A candidate neither installed nor known, offline.
    UnknownCandidate(Seq<char>),
    /// A catalog call failed.
    CatalogUnavailable,
}

/// The outcome a terminal step carries, or nothing for a request.
pub open spec fn spec_outcome_of_step(r: ResolveStep) -> Option<ResolutionOutcome> {
    match r {
        ResolveStep::Fetch(_) => None,
        ResolveStep::CheckDir(_) => None,
        ResolveStep::Resolved(v) => Some(ResolutionOutcome::Version(v@)),
        ResolveStep::Failed(e) => match e {
            ResolveError::UnresolvableVersion { candidate, version } => Some(
                ResolutionOutcome::UnresolvableVersion(candidate@, version@),
            ),
            ResolveError::VersionRequiredOffline { candidate } => Some(
                ResolutionOutcome::VersionRequiredOffline(candidate@),
            ),
            ResolveError::UnknownCandidate { candidate } => Some(
                ResolutionOutcome::UnknownCandidate(candidate@),
            ),
            ResolveError::CatalogUnavailable => Some(ResolutionOutcome::CatalogUnavailable),
        },
    }
}

/// How one whole resolution ends, as a function of the context and of the
/// answers the environment would give: the two catalog bodies and the two
/// directory observations. Answers that the algorithm never asks for are
/// ignored.
pub open spec fn spec_resolution_outcome(
    ctx: ResolutionContext,
    default_body: Seq<char>,
    validation_body: Seq<char>,
    candidate_dir_exists: bool,
    version_dir_exists: bool,
) -> ResolutionOutcome {
    if ctx.online {
        let version = match ctx.requested {
            Some(v) => v@,
            None => trimmed(default_body),
        };
        if trimmed(validation_body) == "valid"@ || ctx.target_folder is Some {
            ResolutionOutcome::Version(version)
        } else if version_dir_exists {
            ResolutionOutcome::Version(version)
        } else {
            ResolutionOutcome::UnresolvableVersion(ctx.candidate@, version)
        }
    } else {
        match ctx.requested {
            None => ResolutionOutcome::VersionRequiredOffline(ctx.candidate@),
            Some(v) => {
                if candidate_dir_exists {
                    if version_dir_exists {
                        ResolutionOutcome::Version(v@)
                    } else {
                        ResolutionOutcome::UnresolvableVersion(ctx.candidate@, v@)
                    }
                } else if contains_name(ctx.known_candidates.deep_view(), ctx.candidate@) {
                    ResolutionOutcome::UnresolvableVersion(ctx.candidate@, v@)
                } else {
                    ResolutionOutcome::UnknownCandidate(ctx.candidate@)
                }
            },
        }
    }
}

/// Resolution keeps no hidden state: two resolutions of the same context,
/// against an unchanged catalog and unchanged directories, end the same way.
pub proof fn lemma_resolution_idempotent(
    ctx1: ResolutionContext,
    ctx2: ResolutionContext,
    default_body1: Seq<char>,
    default_body2: Seq<char>,
    validation_body1: Seq<char>,
    validation_body2: Seq<char>,
    candidate_dir_exists1: bool,
    candidate_dir_exists2: bool,
    version_dir_exists1: bool,
    version_dir_exists2: bool,
)
    requires
        ctx1 == ctx2,
        default_body1 == default_body2,
        validation_body1 == validation_body2,
        candidate_dir_exists1 == candidate_dir_exists2,
        version_dir_exists1 == version_dir_exists2,
    ensures
        spec_resolution_outcome(
            ctx1,
            default_body1,
            validation_body1,
            candidate_dir_exists1,
            version_dir_exists1,
        ) == spec_resolution_outcome(
            ctx2,
            default_body2,
            validation_body2,
            candidate_dir_exists2,
            version_dir_exists2,
        ),
{
}

impl Resolution {
    /// A resolution that has not started.
    pub fn new(ctx: ResolutionContext) -> (r: Resolution)
        ensures
            r.ctx == ctx,
            r.phase is Start,
    {
        Resolution { ctx, phase: Phase::Start }
    }

    /// Issues the first request, or fails at once when offline without a
    /// requested version.
    pub fn start(&mut self) -> (r: ResolveStep)
        requires
            old(self).phase is Start,
        ensures
            start_post(*old(self), *final(self), r),
    {
        if self.ctx.online {
            match &self.ctx.requested {
                None => {
                    let url = default_version_url(&self.ctx);
                    self.phase = Phase::AwaitingDefault;
                    ResolveStep::Fetch(url)
                },
                Some(v) => {
                    let url = validation_url(&self.ctx, v.as_str());
                    let version = v.clone();
                    self.phase = Phase::AwaitingValidation { version };
                    ResolveStep::Fetch(url)
                },
            }
        } else {
            match &self.ctx.requested {
                None => {
                    let candidate = self.ctx.candidate.clone();
                    self.phase = Phase::Complete;
                    ResolveStep::Failed(ResolveError::VersionRequiredOffline { candidate })
                },
                Some(v) => {
                    let path = joined(self.ctx.candidates_dir.as_str(), self.ctx.candidate.as_str());
                    let version = v.clone();
                    self.phase = Phase::AwaitingCandidateDir { version };
                    ResolveStep::CheckDir(path)
                },
            }
        }
    }

    /// Consumes the answer to the pending request and decides what comes
    /// next.
    pub fn step(&mut self, event: ResolveEvent) -> (r: ResolveStep)
        requires
            event_matches(old(self).phase, event),
        ensures
            step_post(*old(self), event, *final(self), r),
    {
        match (&self.phase, &event) {
            (Phase::AwaitingDefault, ResolveEvent::NetworkFailed) => {
                self.phase = Phase::Complete;
                ResolveStep::Failed(ResolveError::CatalogUnavailable)
            },
            (Phase::AwaitingValidation { .. }, ResolveEvent::NetworkFailed) => {
                self.phase = Phase::Complete;
                ResolveStep::Failed(ResolveError::CatalogUnavailable)
            },
            (Phase::AwaitingDefault, ResolveEvent::Response(body)) => {
                let version = trim(body.as_str());
                let url = validation_url(&self.ctx, version.as_str());
                self.phase = Phase::AwaitingValidation { version };
                ResolveStep::Fetch(url)
            },
            (Phase::AwaitingValidation { version }, ResolveEvent::Response(body)) => {
                let version = version.clone();
                let answer = trim(body.as_str());
                let accepted = answer == String::from_str("valid");
                if accepted {
                    self.phase = Phase::Complete;
                    ResolveStep::Resolved(version)
                } else if self.ctx.target_folder.is_some() {
                    self.phase = Phase::Complete;
                    ResolveStep::Resolved(version)
                } else {
                    let path = version_dir_in(
                        self.ctx.candidates_dir.as_str(),
                        self.ctx.candidate.as_str(),
                        version.as_str(),
                    );
                    self.phase = Phase::AwaitingVersionDir { version };
                    ResolveStep::CheckDir(path)
                }
            },
            (Phase::AwaitingVersionDir { version }, ResolveEvent::DirCheck(exists)) => {
                let version = version.clone();
                self.phase = Phase::Complete;
                if *exists {
                    ResolveStep::Resolved(version)
                } else {
                    let candidate = self.ctx.candidate.clone();
                    ResolveStep::Failed(ResolveError::UnresolvableVersion { candidate, version })
                }
            },
            (Phase::AwaitingCandidateDir { version }, ResolveEvent::DirCheck(exists)) => {
                let version = version.clone();
                if *exists {
                    let path = version_dir_in(
                        self.ctx.candidates_dir.as_str(),
                        self.ctx.candidate.as_str(),
                        version.as_str(),
                    );
                    self.phase = Phase::AwaitingVersionDir { version };
                    ResolveStep::CheckDir(path)
                } else {
                    let candidate = self.ctx.candidate.clone();
                    self.phase = Phase::Complete;
                    if contains_candidate(&self.ctx.known_candidates, &self.ctx.candidate) {
                        ResolveStep::Failed(
                            ResolveError::UnresolvableVersion { candidate, version },
                        )
                    } else {
                        ResolveStep::Failed(ResolveError::UnknownCandidate { candidate })
                    }
                }
            },
            _ => {
                proof {
                    assert(false);
                }
                ResolveStep::Failed(ResolveError::CatalogUnavailable)
            },
        }
    }
}

/// Runs one whole resolution against given answers: the catalog bodies and
/// the directory observations one invocation would see. Useful where all
/// answers are at hand; a caller that gathers them lazily drives
/// [`Resolution`] itself. The result is a terminal step carrying exactly the
/// outcome [`spec_resolution_outcome`] assigns to these answers.
pub fn resolve_with_answers(
    ctx: ResolutionContext,
    default_body: &str,
    validation_body: &str,
    candidate_dir_exists: bool,
    version_dir_exists: bool,
) -> (r: ResolveStep)
    ensures
        spec_outcome_of_step(r) == Some(
            spec_resolution_outcome(
                ctx,
                default_body@,
                validation_body@,
                candidate_dir_exists,
                version_dir_exists,
            ),
        ),
{
    let mut res = Resolution::new(ctx);
    let mut step = res.start();
    if matches!(&res.phase, Phase::AwaitingDefault) {
        step = res.step(ResolveEvent::Response(String::from_str(default_body)));
    }
    if matches!(&res.phase, Phase::AwaitingCandidateDir { .. }) {
        step = res.step(ResolveEvent::DirCheck(candidate_dir_exists));
    }
    if matches!(&res.phase, Phase::AwaitingValidation { .. }) {
        step = res.step(ResolveEvent::Response(String::from_str(validation_body)));
    }
    if matches!(&res.phase, Phase::AwaitingVersionDir { .. }) {
        step = res.step(ResolveEvent::DirCheck(version_dir_exists));
    }
    step
}

} // verus!
