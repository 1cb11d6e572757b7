//! Staging the source tree of a project: a working copy of its repository
//! in a directory named after it.
//!
//! Cloning and opening a repository are left to the caller.
//! [`RemoteRepo::download`] is a step function: it takes the state of a run
//! and the outcome of the last step, and returns the next thing to do
//! together with the state to come back with. A run starts from
//! [`StageState::Start`] and ends with [`StageStep::Done`] or
//! [`StageStep::Failed`].

use vstd::prelude::*;
use vstd::string::*;
use crate::error::CraterError;
use crate::error::ErrorKind;
use crate::error::Failure;
use crate::manifest::message;
use crate::manifest::text_outcome;
use crate::paths::file_stem;
use crate::paths::join;
use crate::paths::path_file_stem;
use crate::paths::path_joined;
use crate::paths::text_of;

verus! {

/// What came back from the step before, as mathematics.
pub ghost enum StageEventModel {
    Begin,
    Cloned,
    Exists,
    Opened,
    Failed(Seq<char>),
}

/// The state of a run, as mathematics.
pub ghost enum StageStateModel {
    Start,
    Cloning { dest: Seq<char> },
    Opening { dest: Seq<char> },
}

/// The next thing to do, as mathematics.
pub ghost enum StageStepModel {
    Clone { url: Seq<char>, dest: Seq<char>, state: StageStateModel },
    Open { dest: Seq<char>, state: StageStateModel },
    Done { path: Seq<char> },
    Failed(Failure),
}

/// The error for a URL that names no directory.
pub open spec fn name_failure(url: Seq<char>) -> Failure {
    Failure::leaf(ErrorKind::NameResolution, "unable to determine project name from "@ + url)
}

/// The error for a repository that could be neither cloned nor opened.
pub open spec fn vcs_failure(url: Seq<char>, dest: Seq<char>, reason: Option<Seq<char>>) -> Failure {
    Failure::with_reason(
        ErrorKind::Vcs,
        "unable to clone or open repository "@ + url + " at "@ + dest,
        reason,
    )
}

/// The name of the directory for a repository, given the file stem of its
/// URL.
pub open spec fn stage_name_from(url: Seq<char>, stem: Option<Seq<char>>) -> Result<
    Seq<char>,
    Failure,
> {
    match stem {
        Some(name) => Ok(name),
        None => Err(name_failure(url)),
    }
}

/// The name of the directory for a repository: the last segment of its URL
/// without the extension.
pub open spec fn stage_name(url: Seq<char>) -> Result<Seq<char>, Failure> {
    stage_name_from(url, path_file_stem(url))
}

/// The transition function of staging: the step that follows the given
/// state and event, for the repository at `url` and the directory `into`
/// that is to hold its working copy.
pub open spec fn stage_step(
    url: Seq<char>,
    into: Seq<char>,
    state: StageStateModel,
    event: StageEventModel,
) -> StageStepModel {
    match state {
        StageStateModel::Start => match stage_name(url) {
            Err(e) => StageStepModel::Failed(e),
            Ok(name) => {
                let dest = path_joined(into, name);
                StageStepModel::Clone { url, dest, state: StageStateModel::Cloning { dest } }
            },
        },
        StageStateModel::Cloning { dest } => match event {
            StageEventModel::Cloned => StageStepModel::Done { path: dest },
            StageEventModel::Exists => StageStepModel::Open {
                dest,
                state: StageStateModel::Opening { dest },
            },
            StageEventModel::Failed(reason) => StageStepModel::Failed(
                vcs_failure(url, dest, Some(reason)),
            ),
            _ => StageStepModel::Failed(vcs_failure(url, dest, None)),
        },
        StageStateModel::Opening { dest } => match event {
            StageEventModel::Opened => StageStepModel::Done { path: dest },
            StageEventModel::Failed(reason) => StageStepModel::Failed(
                vcs_failure(url, dest, Some(reason)),
            ),
            _ => StageStepModel::Failed(vcs_failure(url, dest, None)),
        },
    }
}

/// What came back from the step before.
#[derive(Debug)]
pub enum StageEvent {
    /// Nothing yet: the run begins.
    Begin,
    /// The repository was cloned.
    Cloned,
    /// The clone failed because the destination already holds a repository.
    Exists,
    /// The repository at the destination was opened.
    Opened,
    /// The clone or the opening failed for another reason, which is given.
    Failed(String),
}

impl View for StageEvent {
    type V = StageEventModel;

    open spec fn view(&self) -> StageEventModel {
        match self {
            StageEvent::Begin => StageEventModel::Begin,
            StageEvent::Cloned => StageEventModel::Cloned,
            StageEvent::Exists => StageEventModel::Exists,
            StageEvent::Opened => StageEventModel::Opened,
            StageEvent::Failed(reason) => StageEventModel::Failed(reason@),
        }
    }
}

/// The state of a run between two steps.
#[derive(Debug)]
pub enum StageState {
    /// Nothing has been done.
    Start,
    /// The repository is being cloned into `dest`.
    Cloning { dest: String },
    /// The repository that `dest` already holds is being opened.
    Opening { dest: String },
}

impl View for StageState {
    type V = StageStateModel;

    open spec fn view(&self) -> StageStateModel {
        match self {
            StageState::Start => StageStateModel::Start,
            StageState::Cloning { dest } => StageStateModel::Cloning { dest: dest@ },
            StageState::Opening { dest } => StageStateModel::Opening { dest: dest@ },
        }
    }
}

/// The next thing to do in a run.
#[derive(Debug)]
pub enum StageStep {
    /// Clone the repository at `url` into `dest`.
    Clone { url: String, dest: String, state: StageState },
    /// Open the repository that `dest` holds.
    Open { dest: String, state: StageState },
    /// The working copy is at `path`.
    Done { path: String },
    /// The run ended with an error.
    Failed(CraterError),
}

impl View for StageStep {
    type V = StageStepModel;

    open spec fn view(&self) -> StageStepModel {
        match self {
            StageStep::Clone { url, dest, state } => StageStepModel::Clone {
                url: url@,
                dest: dest@,
                state: state@,
            },
            StageStep::Open { dest, state } => StageStepModel::Open { dest: dest@, state: state@ },
            StageStep::Done { path } => StageStepModel::Done { path: path@ },
            StageStep::Failed(e) => StageStepModel::Failed(e@),
        }
    }
}

/// A repository to be staged.
#[derive(Debug)]
pub struct RemoteRepo {
    url: String,
}

impl View for RemoteRepo {
    type V = Seq<char>;

    /// The URL of the repository.
    closed spec fn view(&self) -> Seq<char> {
        self.url@
    }
}

impl RemoteRepo {
    /// The repository at `url`.
    pub fn new(url: String) -> (repo: RemoteRepo)
        ensures
            repo@ == url@,
    {
        RemoteRepo { url }
    }

    /// The name of the directory for the working copy, given the file stem
    /// of the URL.
    pub fn proj_name_from(&self, stem: Option<String>) -> (r: Result<String, CraterError>)
        ensures
            text_outcome(r) == stage_name_from(self@, text_of(stem)),
    {
        match stem {
            Some(name) => Ok(name),
            None => Err(
                CraterError::new(
                    ErrorKind::NameResolution,
                    message("unable to determine project name from ", self.url.as_str()),
                ),
            ),
        }
    }

    /// The name of the directory for the working copy: the last segment of
    /// the URL without its extension. A URL without such a segment is an
    /// error.
    pub fn proj_name(&self) -> (r: Result<String, CraterError>)
        ensures
            text_outcome(r) == stage_name(self@),
    {
        self.proj_name_from(file_stem(self.url.as_str()))
    }

    /// The error for a clone or an opening that failed.
    fn vcs_error(&self, dest: &str, reason: Option<String>) -> (e: CraterError)
        ensures
            e@ == vcs_failure(self@, dest@, text_of(reason)),
    {
        let mut msg = message("unable to clone or open repository ", self.url.as_str());
        msg.append(" at ");
        msg.append(dest);
        CraterError::with_reason(ErrorKind::Vcs, msg, reason)
    }

    /// Takes the staging of the repository into the directory `into` one
    /// step further.
    ///
    /// The working copy goes to the directory named after the repository
    /// inside `into`. The repository is cloned there; where the clone finds
    /// a repository already in place, that one is opened and used instead,
    /// so that staging can be repeated. Any other failure of the clone, and
    /// any failure of the opening, ends the run with an error.
    ///
    /// `state` is the state that the step before returned,
    /// `StageState::Start` at first; `event` is what carrying out that step
    /// gave. `into` is the same at every step of a run.
    pub fn download(&self, into: &str, state: StageState, event: StageEvent) -> (step: StageStep)
        ensures
            step@ == stage_step(self@, into@, state@, event@),
    {
        match state {
            StageState::Start => match self.proj_name() {
                Err(e) => StageStep::Failed(e),
                Ok(name) => {
                    let dest = join(into, name.as_str());
                    StageStep::Clone {
                        url: self.url.clone(),
                        dest: dest.clone(),
                        state: StageState::Cloning { dest },
                    }
                },
            },
            StageState::Cloning { dest } => match event {
                StageEvent::Cloned => StageStep::Done { path: dest },
                StageEvent::Exists => StageStep::Open {
                    dest: dest.clone(),
                    state: StageState::Opening { dest },
                },
                StageEvent::Failed(reason) => StageStep::Failed(
                    self.vcs_error(dest.as_str(), Some(reason)),
                ),
                _ => StageStep::Failed(self.vcs_error(dest.as_str(), None)),
            },
            StageState::Opening { dest } => match event {
                StageEvent::Opened => StageStep::Done { path: dest },
                StageEvent::Failed(reason) => StageStep::Failed(
                    self.vcs_error(dest.as_str(), Some(reason)),
                ),
                _ => StageStep::Failed(self.vcs_error(dest.as_str(), None)),
            },
        }
    }
}

/// The directories that hold a repository.
pub type Host = Set<Seq<char>>;

/// What carrying out a step gives, and the host after it, where a clone
/// succeeds unless the destination holds a repository already, and a
/// repository that is there can be opened.
pub open spec fn carried_out(step: StageStepModel, host: Host) -> (StageEventModel, Host) {
    match step {
        StageStepModel::Clone { dest, .. } => if host.contains(dest) {
            (StageEventModel::Exists, host)
        } else {
            (StageEventModel::Cloned, host.insert(dest))
        },
        StageStepModel::Open { dest, .. } => if host.contains(dest) {
            (StageEventModel::Opened, host)
        } else {
            (StageEventModel::Failed("not a repository"@), host)
        },
        _ => (StageEventModel::Begin, host),
    }
}

/// The state to come back with after a step, where the run goes on.
pub open spec fn pending(step: StageStepModel) -> Option<StageStateModel> {
    match step {
        StageStepModel::Clone { state, .. } => Some(state),
        StageStepModel::Open { state, .. } => Some(state),
        _ => None,
    }
}

/// The step at which a run stops and the host it leaves, when at most
/// `fuel` steps are carried out, the given one first.
pub open spec fn run_from(
    url: Seq<char>,
    into: Seq<char>,
    step: StageStepModel,
    host: Host,
    fuel: nat,
) -> (StageStepModel, Host)
    decreases fuel,
{
    if fuel > 0 && pending(step) is Some {
        let (event, after) = carried_out(step, host);
        run_from(url, into, stage_step(url, into, pending(step)->0, event), after, (fuel - 1) as nat)
    } else {
        (step, host)
    }
}

/// The end of a staging on a host: the last step, and the host as the run
/// leaves it. A run clones the repository and, where it is there already,
/// opens it.
pub open spec fn run(url: Seq<char>, into: Seq<char>, host: Host) -> (StageStepModel, Host) {
    run_from(
        url,
        into,
        stage_step(url, into, StageStateModel::Start, StageEventModel::Begin),
        host,
        2,
    )
}

/// Staging a repository twice gives the same working copy both times, and
/// the second time does not fail although the directory is there already.
/// The working copy is in the directory named after the repository; the
/// first staging puts it there unless it is there, the second finds it and
/// changes nothing. A URL that names no directory fails both times, before
/// anything is cloned.
pub proof fn staging_is_idempotent(url: Seq<char>, into: Seq<char>, host: Host)
    ensures
        ({
            let (first, after) = run(url, into, host);
            let (second, again) = run(url, into, after);
            match stage_name(url) {
                Ok(name) => {
                    let dest = path_joined(into, name);
                    &&& first == StageStepModel::Done { path: dest }
                    &&& second == first
                    &&& after == host.insert(dest)
                    &&& again == after
                },
                Err(e) => {
                    &&& first == StageStepModel::Failed(e)
                    &&& second == first
                    &&& after == host
                    &&& again == host
                },
            }
        }),
{
    let begin = stage_step(url, into, StageStateModel::Start, StageEventModel::Begin);
    if let Ok(name) = stage_name(url) {
        let dest = path_joined(into, name);
        let cloning = StageStateModel::Cloning { dest };
        let opening = StageStateModel::Opening { dest };
        let open = StageStepModel::Open { dest, state: opening };
        let done = StageStepModel::Done { path: dest };
        assert(begin == StageStepModel::Clone { url, dest, state: cloning });
        assert forall|h: Host| #[trigger] run(url, into, h) == (done, h.insert(dest)) by {
            if h.contains(dest) {
                assert(carried_out(begin, h) == (StageEventModel::Exists, h));
                assert(stage_step(url, into, cloning, StageEventModel::Exists) == open);
                assert(run_from(url, into, begin, h, 2) == run_from(url, into, open, h, 1));
                assert(carried_out(open, h) == (StageEventModel::Opened, h));
                assert(stage_step(url, into, opening, StageEventModel::Opened) == done);
                assert(run_from(url, into, open, h, 1) == run_from(url, into, done, h, 0));
                assert(h.insert(dest) =~= h);
            } else {
                assert(carried_out(begin, h) == (StageEventModel::Cloned, h.insert(dest)));
                assert(stage_step(url, into, cloning, StageEventModel::Cloned) == done);
                assert(run_from(url, into, begin, h, 2) == run_from(
                    url,
                    into,
                    done,
                    h.insert(dest),
                    1,
                ));
            }
        }
        assert(host.insert(dest).insert(dest) =~= host.insert(dest));
    } else {
        assert forall|h: Host| #[trigger] run(url, into, h) == (begin, h) by {}
    }
}

} // verus!
