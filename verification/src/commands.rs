use vstd::prelude::*;

use crate::command::{
    add_upstream, clone_into, config_read, succeeded, Command, CommandView, Outcome, OutcomeView,
};
use crate::config::{base_directory, basedir};
use crate::error::CloneError;
use crate::source::{destination_path, url_parse, SourceUrl, SourceUrlView};
use crate::upstream::{upstream_of, upstream_url, UpstreamSpec, UpstreamSpecView};

verus! {

/// A request to clone a repository.
#[derive(Debug, PartialEq, Eq)]
pub struct Clone {
    /// The URL of the repository to clone.
    pub url: String,
    /// The user or organisation where the upstream repository is found
    /// under the same name as the one cloned.
    pub upstream: Option<String>,
    /// The URL of the upstream repository in full. Excludes `upstream`.
    pub upstream_url: Option<String>,
    /// Arguments that are handed on to the tool's clone command.
    pub args: Vec<String>,
}

/// The mathematical content of a [`Clone`].
pub struct CloneView {
    pub url: Seq<char>,
    pub upstream: Option<Seq<char>>,
    pub upstream_url: Option<Seq<char>>,
    pub args: Seq<Seq<char>>,
}

impl View for Clone {
    type V = CloneView;

    open spec fn view(&self) -> CloneView {
        CloneView {
            url: self.url@,
            upstream: self.upstream.deep_view(),
            upstream_url: self.upstream_url.deep_view(),
            args: self.args.deep_view(),
        }
    }
}

/// What the caller is to do next.
#[derive(Debug, PartialEq, Eq)]
pub enum Action {
    /// Execute this command and hand its outcome to [`Planner::advance`].
    Execute(Command),
    /// Stop: the operation has ended in this way.
    Finish(Result<(), CloneError>),
}

/// The mathematical content of an [`Action`].
pub enum ActionView {
    Execute(CommandView),
    Finish(Result<(), CloneError>),
}

impl View for Action {
    type V = ActionView;

    open spec fn view(&self) -> ActionView {
        match self {
            Action::Execute(command) => ActionView::Execute(command@),
            Action::Finish(result) => ActionView::Finish(*result),
        }
    }
}

/// How far a clone has come: which command's outcome is awaited, and what is
/// still needed to go on from it.
#[derive(Debug, PartialEq, Eq)]
pub enum Planner {
    /// The base directory is being read from the configuration.
    ReadingConfig { url: String, source: SourceUrl, upstream: UpstreamSpec, args: Vec<String> },
    /// The repository is being cloned into `destination`.
    Cloning { url: String, source: SourceUrl, upstream: UpstreamSpec, destination: String },
    /// The upstream remote is being added to the clone.
    AddingRemote,
    /// The operation has ended.
    Finished(Result<(), CloneError>),
}

/// The mathematical content of a [`Planner`].
pub enum PlannerView {
    ReadingConfig {
        url: Seq<char>,
        source: SourceUrlView,
        upstream: UpstreamSpecView,
        args: Seq<Seq<char>>,
    },
    Cloning {
        url: Seq<char>,
        source: SourceUrlView,
        upstream: UpstreamSpecView,
        destination: Seq<char>,
    },
    AddingRemote,
    Finished(Result<(), CloneError>),
}

impl View for Planner {
    type V = PlannerView;

    open spec fn view(&self) -> PlannerView {
        match self {
            Planner::ReadingConfig { url, source, upstream, args } => PlannerView::ReadingConfig {
                url: url@,
                source: source@,
                upstream: upstream@,
                args: args.deep_view(),
            },
            Planner::Cloning { url, source, upstream, destination } => PlannerView::Cloning {
                url: url@,
                source: source@,
                upstream: upstream@,
                destination: destination@,
            },
            Planner::AddingRemote => PlannerView::AddingRemote,
            Planner::Finished(result) => PlannerView::Finished(*result),
        }
    }
}

/// One step of a clone: the state reached and what the caller is to do in
/// it.
#[derive(Debug, PartialEq, Eq)]
pub struct Step {
    pub planner: Planner,
    pub action: Action,
}

/// The mathematical content of a [`Step`].
pub struct StepView {
    pub planner: PlannerView,
    pub action: ActionView,
}

impl View for Step {
    type V = StepView;

    open spec fn view(&self) -> StepView {
        StepView { planner: self.planner@, action: self.action@ }
    }
}

/// The step that ends the operation with `result`.
pub open spec fn finished(result: Result<(), CloneError>) -> StepView {
    StepView { planner: PlannerView::Finished(result), action: ActionView::Finish(result) }
}

/// The first step of a clone.
///
/// A request that gives the upstream in both forms is refused, and so is one
/// whose URL does not parse. Any other request begins by reading the base
/// directory from the configuration.
pub open spec fn begin(request: CloneView) -> StepView {
    match upstream_of(request.upstream, request.upstream_url) {
        Err(e) => finished(Err(e)),
        Ok(upstream) => match url_parse(request.url) {
            None => finished(Err(CloneError::InvalidUrl)),
            Some(source) => StepView {
                planner: PlannerView::ReadingConfig {
                    url: request.url,
                    source,
                    upstream,
                    args: request.args,
                },
                action: ActionView::Execute(config_read()),
            },
        },
    }
}

/// The step that follows when the command awaited in `planner` ended with
/// `outcome`.
///
/// Once the base directory is resolved, the repository is cloned to its
/// place below it. Once the clone has succeeded, the upstream remote is
/// added inside it, if one is wanted. A command that fails ends the
/// operation, and so does a base directory or an upstream URL that cannot be
/// had. An operation that has ended stays as it is.
pub open spec fn next(planner: PlannerView, outcome: OutcomeView) -> StepView {
    match planner {
        PlannerView::ReadingConfig { url, source, upstream, args } => match base_directory(
            outcome,
        ) {
            Err(e) => finished(Err(e)),
            Ok(base) => {
                let destination = destination_path(base, source);
                StepView {
                    planner: PlannerView::Cloning { url, source, upstream, destination },
                    action: ActionView::Execute(clone_into(url, destination, args)),
                }
            },
        },
        PlannerView::Cloning { url, source, upstream, destination } => {
            if !succeeded(outcome.exit_status) {
                finished(Err(CloneError::CloneFailed { exit_status: outcome.exit_status }))
            } else {
                match upstream_url(upstream, url, source) {
                    Err(e) => finished(Err(e)),
                    Ok(None) => finished(Ok(())),
                    Ok(Some(remote)) => StepView {
                        planner: PlannerView::AddingRemote,
                        action: ActionView::Execute(add_upstream(remote, destination)),
                    },
                }
            }
        },
        PlannerView::AddingRemote => {
            if succeeded(outcome.exit_status) {
                finished(Ok(()))
            } else {
                finished(Err(CloneError::RemoteAddFailed { exit_status: outcome.exit_status }))
            }
        },
        PlannerView::Finished(result) => finished(result),
    }
}

impl Step {
    /// The step that ends the operation with `result`.
    pub fn finished(result: Result<(), CloneError>) -> (r: Step)
        ensures
            r@ == finished(result),
    {
        Step { planner: Planner::Finished(result), action: Action::Finish(result) }
    }
}

impl Clone {
    /// Begins the clone: checks the request and says what to do first.
    pub fn run(self) -> (r: Step)
        ensures
            r@ == begin(self@),
    {
        let upstream = match UpstreamSpec::from_options(self.upstream, self.upstream_url) {
            Ok(upstream) => upstream,
            Err(e) => {
                return Step::finished(Err(e));
            },
        };
        let source = match SourceUrl::parse(self.url.as_str()) {
            Ok(source) => source,
            Err(e) => {
                return Step::finished(Err(e));
            },
        };
        Step {
            planner: Planner::ReadingConfig { url: self.url, source, upstream, args: self.args },
            action: Action::Execute(Command::config_read()),
        }
    }
}

impl Planner {
    /// Goes on from the outcome of the command that was awaited.
    pub fn advance(self, outcome: Outcome) -> (r: Step)
        ensures
            r@ == next(self@, outcome@),
    {
        match self {
            Planner::ReadingConfig { url, source, upstream, args } => {
                match basedir(outcome) {
                    Err(e) => Step::finished(Err(e)),
                    Ok(base) => {
                        let destination = source.destination(base.as_str());
                        let command = Command::clone_into(url.clone(), destination.clone(), args);
                        Step {
                            planner: Planner::Cloning { url, source, upstream, destination },
                            action: Action::Execute(command),
                        }
                    },
                }
            },
            Planner::Cloning { url, source, upstream, destination } => {
                if !outcome.success() {
                    return Step::finished(
                        Err(CloneError::CloneFailed { exit_status: outcome.exit_status }),
                    );
                }
                match upstream.remote_url(url.as_str(), &source) {
                    Err(e) => Step::finished(Err(e)),
                    Ok(None) => Step::finished(Ok(())),
                    Ok(Some(remote)) => Step {
                        planner: Planner::AddingRemote,
                        action: Action::Execute(Command::add_upstream(remote, destination)),
                    },
                }
            },
            Planner::AddingRemote => {
                if outcome.success() {
                    Step::finished(Ok(()))
                } else {
                    Step::finished(
                        Err(CloneError::RemoteAddFailed { exit_status: outcome.exit_status }),
                    )
                }
            },
            Planner::Finished(result) => Step::finished(result),
        }
    }
}

} // verus!
