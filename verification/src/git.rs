//! Keeping the working copy in step with the remote repository by
//! fast-forward only: what to do before a run, and how a push is judged.

use vstd::prelude::*;
use vstd::string::*;
use crate::error::AppError;

verus! {

/// How the fetched branch tip relates to the local one.
#[derive(Debug, Clone, Copy)]
pub struct MergeAnalysis {
    /// The local branch already holds the fetched tip.
    pub up_to_date: bool,
    /// The fetched tip descends from the local one.
    pub fast_forward: bool,
    /// The two have diverged: only a merge could join them.
    pub normal: bool,
    /// The local branch has no commit yet.
    pub unborn: bool,
}

/// How to obtain the working copy.
#[derive(Debug)]
pub enum PrepareStep {
    /// None is there: clone it from `url`.
    CloneFrom { url: String },
    /// One is there: fetch `refspec` from the remote.
    Fetch { refspec: String },
}

/// What to do with the working copy after a fetch.
#[derive(Debug, PartialEq, Eq, Structural, Clone, Copy)]
pub enum SyncStep {
    /// Move the local branch to the fetched tip and check it out.
    FastForward,
    /// Leave the working copy as it is.
    Keep,
}

/// How the remote answered a push.
#[derive(Debug)]
pub enum PushOutcome {
    Accepted,
    /// The remote holds commits that the pushed branch lacks.
    NonFastForward,
    /// The remote did not accept the key.
    AuthRejected,
    /// Anything else, with the remote's words.
    Failed(String),
}

/// The one commit and push of a run.
#[derive(Debug)]
pub struct PublishPlan {
    /// The paths to stage.
    pub pathspec: String,
    /// The reference that the commit moves; its tip is the only parent.
    pub update_ref: String,
    pub message: String,
    pub refspec: String,
}

/// Where the repository of `package_name` lives.
pub open spec fn repo_url_spec(package_name: Seq<char>) -> Seq<char> {
    "ssh://aur@aur.archlinux.org/"@ + package_name + ".git"@
}

/// What a fetch allows: a fast-forward where the fetched tip descends from
/// the local one, nothing where the local branch holds it already, and
/// otherwise no step at all.
pub open spec fn sync_step(analysis: MergeAnalysis) -> Option<SyncStep> {
    if analysis.fast_forward {
        Some(SyncStep::FastForward)
    } else if analysis.up_to_date {
        Some(SyncStep::Keep)
    } else {
        None
    }
}

/// Works on the package repository with one key.
pub struct GitHelper {
    pub ssh_key_path: String,
}

impl GitHelper {
    pub fn new(ssh_key_path: String) -> (r: Self)
        ensures
            r.ssh_key_path == ssh_key_path,
    {
        GitHelper { ssh_key_path }
    }

    /// Where the repository of `package_name` lives.
    pub fn repo_url(&self, package_name: &str) -> (r: String)
        ensures
            r@ == repo_url_spec(package_name@),
    {
        String::from_str("ssh://aur@aur.archlinux.org/").concat(package_name).concat(".git")
    }

    /// How to obtain the working copy, given whether one is on disk.
    pub fn prepare_aur_repo(&self, path_exists: bool, package_name: &str) -> (r: PrepareStep)
        ensures
            match r {
                PrepareStep::CloneFrom { url } => !path_exists && url@ == repo_url_spec(
                    package_name@,
                ),
                PrepareStep::Fetch { refspec } => path_exists && refspec@
                    == "refs/heads/*:refs/heads/*"@,
            },
    {
        if path_exists {
            PrepareStep::Fetch { refspec: String::from_str("refs/heads/*:refs/heads/*") }
        } else {
            PrepareStep::CloneFrom { url: self.repo_url(package_name) }
        }
    }

    /// What to do after the fetch. Diverged histories are refused: nothing
    /// is merged.
    pub fn after_fetch(&self, analysis: MergeAnalysis) -> (r: Result<SyncStep, AppError>)
        ensures
            match r {
                Ok(step) => sync_step(analysis) == Some(step),
                Err(e) => sync_step(analysis) is None && e == AppError::SyncConflict,
            },
    {
        if analysis.fast_forward {
            Ok(SyncStep::FastForward)
        } else if analysis.up_to_date {
            Ok(SyncStep::Keep)
        } else {
            Err(AppError::SyncConflict)
        }
    }

    /// The commit to make and the push that follows it.
    pub fn commit_and_push(&self, message: &str) -> (r: PublishPlan)
        ensures
            r.pathspec@ == "*"@,
            r.update_ref@ == "HEAD"@,
            r.message@ == message@,
            r.refspec@ == "refs/heads/master:refs/heads/master"@,
    {
        PublishPlan {
            pathspec: String::from_str("*"),
            update_ref: String::from_str("HEAD"),
            message: String::from_str(message),
            refspec: String::from_str("refs/heads/master:refs/heads/master"),
        }
    }

    /// How a push ends the run. A rejected push is not tried again.
    pub fn after_push(&self, outcome: PushOutcome) -> (r: Result<(), AppError>)
        ensures
            match outcome {
                PushOutcome::Accepted => r is Ok,
                PushOutcome::NonFastForward => r == Err::<(), AppError>(AppError::SyncConflict),
                PushOutcome::AuthRejected => r == Err::<(), AppError>(AppError::SshAuthFailed),
                PushOutcome::Failed(m) => r == Err::<(), AppError>(AppError::Git(m)),
            },
    {
        match outcome {
            PushOutcome::Accepted => Ok(()),
            PushOutcome::NonFastForward => Err(AppError::SyncConflict),
            PushOutcome::AuthRejected => Err(AppError::SshAuthFailed),
            PushOutcome::Failed(m) => Err(AppError::Git(m)),
        }
    }
}

} // verus!
