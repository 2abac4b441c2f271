//! One run from snapshot to push: whether the snapshot is news, what the
//! package files become, and what is committed.

use vstd::prelude::*;
use vstd::string::*;
use crate::archive::{ArchiveResult, WebArchiveClient};
use crate::aur::{
    initial_manifest,
    manifest_sha256,
    manifest_version,
    srcinfo_text,
    updated_manifest,
    AurPackageManager,
};
use crate::config::{is_web_url, Config};
use crate::error::AppError;
use crate::git::{GitHelper, PublishPlan};
use crate::text::{all_digits, lemma_lex_le_reflexive, lex_le, same_text, text_le};
use crate::version::{lemma_lexical_order_is_chronological, token_value};

verus! {

/// What the published build description says of itself. A field is `None`
/// where the description does not yield it.
#[derive(Debug)]
pub struct PublishedManifest {
    pub version: Option<String>,
    pub sha256: Option<String>,
}

/// A published description as plain values.
pub ghost struct ManifestView {
    pub version: Option<Seq<char>>,
    pub sha256: Option<Seq<char>>,
}

impl View for PublishedManifest {
    type V = ManifestView;

    open spec fn view(&self) -> ManifestView {
        ManifestView {
            version: match self.version {
                Some(v) => Some(v@),
                None => None,
            },
            sha256: match self.sha256 {
                Some(h) => Some(h@),
                None => None,
            },
        }
    }
}

/// What a run does about a fresh snapshot.
#[derive(Debug, PartialEq, Eq, Structural, Clone, Copy)]
pub enum Decision {
    FirstPublish,
    UpToDate,
    NeedsUpdate,
}

/// Why a decision fell as it did.
#[derive(Debug, PartialEq, Eq, Structural, Clone, Copy)]
pub enum Verdict {
    /// Nothing was published before.
    NoManifest,
    /// The snapshot's version does not come after the published one.
    NotNewer,
    /// The version is later, the content the same.
    SameContent,
    /// Version and content are both new.
    ContentChanged,
    /// The published description yields no version.
    VersionUnreadable,
    /// The published description yields no digest.
    HashUnreadable,
}

/// The files of a package.
#[derive(Debug)]
pub struct PackageFiles {
    pub pkgbuild: String,
    pub srcinfo: String,
}

/// How a run goes on once the snapshot is judged.
#[derive(Debug)]
pub enum RunPlan {
    /// Nothing to do: the repository is left alone.
    Nothing,
    /// Write `files`, then commit and push as `publish` says.
    Publish { files: PackageFiles, publish: PublishPlan },
}

/// What a build description says of itself.
pub open spec fn manifest_of(content: Seq<char>) -> ManifestView {
    ManifestView { version: manifest_version(content), sha256: manifest_sha256(content) }
}

/// The published description, where there is one.
pub open spec fn previous_of(content: Option<Seq<char>>) -> Option<ManifestView> {
    match content {
        Some(c) => Some(manifest_of(c)),
        None => None,
    }
}

/// The verdict on a fresh snapshot against what was published.
pub open spec fn judge_spec(
    previous: Option<ManifestView>,
    fresh_version: Seq<char>,
    fresh_sha256: Seq<char>,
) -> Verdict {
    match previous {
        None => Verdict::NoManifest,
        Some(m) => match m.version {
            None => Verdict::VersionUnreadable,
            Some(v) => if lex_le(fresh_version, v) {
                Verdict::NotNewer
            } else {
                match m.sha256 {
                    None => Verdict::HashUnreadable,
                    Some(h) => if h == fresh_sha256 {
                        Verdict::SameContent
                    } else {
                        Verdict::ContentChanged
                    },
                }
            },
        },
    }
}

/// The decision that a verdict carries.
pub open spec fn decision_of(verdict: Verdict) -> Decision {
    match verdict {
        Verdict::NoManifest => Decision::FirstPublish,
        Verdict::NotNewer => Decision::UpToDate,
        Verdict::SameContent => Decision::UpToDate,
        Verdict::ContentChanged => Decision::NeedsUpdate,
        Verdict::VersionUnreadable => Decision::NeedsUpdate,
        Verdict::HashUnreadable => Decision::NeedsUpdate,
    }
}

/// The decision on a fresh snapshot against what was published.
pub open spec fn decide_spec(
    previous: Option<ManifestView>,
    fresh_version: Seq<char>,
    fresh_sha256: Seq<char>,
) -> Decision {
    decision_of(judge_spec(previous, fresh_version, fresh_sha256))
}

/// The message of the commit that publishes `version`.
pub open spec fn commit_message_spec(version: Seq<char>) -> Seq<char> {
    "Update to "@ + version
}

/// The package files for a fresh snapshot: the published description
/// brought up to date, or a first one, and the source metadata.
pub open spec fn package_files_spec(
    name: Seq<char>,
    original_url: Seq<char>,
    existing: Option<Seq<char>>,
    version: Seq<char>,
    sha256: Seq<char>,
    archive_url: Seq<char>,
) -> Option<(Seq<char>, Seq<char>)> {
    let srcinfo = srcinfo_text(name, version, sha256, archive_url);
    match existing {
        Some(c) => match updated_manifest(c, version, sha256) {
            Some(p) => Some((p, srcinfo)),
            None => None,
        },
        None => Some((initial_manifest(name, original_url, version, sha256), srcinfo)),
    }
}

impl Verdict {
    /// The decision that this verdict carries.
    pub fn decision(&self) -> (r: Decision)
        ensures
            r == decision_of(*self),
    {
        match self {
            Verdict::NoManifest => Decision::FirstPublish,
            Verdict::NotNewer => Decision::UpToDate,
            Verdict::SameContent => Decision::UpToDate,
            Verdict::ContentChanged => Decision::NeedsUpdate,
            Verdict::VersionUnreadable => Decision::NeedsUpdate,
            Verdict::HashUnreadable => Decision::NeedsUpdate,
        }
    }
}

/// Judges a fresh snapshot against what was published, with the reason.
pub fn judge(previous: &Option<PublishedManifest>, fresh: &ArchiveResult) -> (r: Verdict)
    ensures
        r == judge_spec(
            match *previous {
                Some(m) => Some(m@),
                None => None,
            },
            fresh.version@,
            fresh.sha256@,
        ),
{
    match previous {
        None => Verdict::NoManifest,
        Some(m) => match &m.version {
            None => Verdict::VersionUnreadable,
            Some(v) => {
                if text_le(fresh.version.as_str(), v.as_str()) {
                    Verdict::NotNewer
                } else {
                    match &m.sha256 {
                        None => Verdict::HashUnreadable,
                        Some(h) => {
                            if same_text(h.as_str(), fresh.sha256.as_str()) {
                                Verdict::SameContent
                            } else {
                                Verdict::ContentChanged
                            }
                        },
                    }
                }
            },
        },
    }
}

/// Decides what a run does about a fresh snapshot.
pub fn decide(previous: &Option<PublishedManifest>, fresh: &ArchiveResult) -> (r: Decision)
    ensures
        r == decide_spec(
            match *previous {
                Some(m) => Some(m@),
                None => None,
            },
            fresh.version@,
            fresh.sha256@,
        ),
{
    judge(previous, fresh).decision()
}

/// Without a published description the decision is to publish for the first time.
pub proof fn lemma_first_publish(fresh_version: Seq<char>, fresh_sha256: Seq<char>)
    ensures
        decide_spec(None, fresh_version, fresh_sha256) == Decision::FirstPublish,
{
}

/// A snapshot whose version does not come after the published one changes
/// nothing, whatever the digests are.
pub proof fn lemma_not_newer_is_up_to_date(
    previous: ManifestView,
    fresh_version: Seq<char>,
    fresh_sha256: Seq<char>,
)
    requires
        previous.version matches Some(v) && lex_le(fresh_version, v),
    ensures
        decide_spec(Some(previous), fresh_version, fresh_sha256) == Decision::UpToDate,
{
}

/// A snapshot with the very version that was published changes nothing.
pub proof fn lemma_same_version_is_up_to_date(
    previous: ManifestView,
    fresh_version: Seq<char>,
    fresh_sha256: Seq<char>,
)
    requires
        previous.version == Some(fresh_version),
    ensures
        decide_spec(Some(previous), fresh_version, fresh_sha256) == Decision::UpToDate,
{
    lemma_lex_le_reflexive(fresh_version);
}

/// On timestamps of one width the decision follows time: nothing changes
/// exactly where the snapshot is not later than what was published, or has
/// the same content.
pub proof fn lemma_decision_follows_time(
    published_version: Seq<char>,
    published_sha256: Seq<char>,
    fresh_version: Seq<char>,
    fresh_sha256: Seq<char>,
)
    requires
        all_digits(published_version),
        all_digits(fresh_version),
        published_version.len() == fresh_version.len(),
    ensures
        decide_spec(
            Some(
                ManifestView {
                    version: Some(published_version),
                    sha256: Some(published_sha256),
                },
            ),
            fresh_version,
            fresh_sha256,
        ) == Decision::UpToDate <==> token_value(fresh_version) <= token_value(
            published_version,
        ) || published_sha256 == fresh_sha256,
{
    lemma_lexical_order_is_chronological(fresh_version, published_version);
}

/// Where the published description yields a version and the same digest as
/// the snapshot, nothing changes, whether or not the versions differ.
pub proof fn lemma_same_content_is_up_to_date(
    previous: ManifestView,
    fresh_version: Seq<char>,
    fresh_sha256: Seq<char>,
)
    requires
        previous.version is Some,
        previous.sha256 == Some(fresh_sha256),
    ensures
        decide_spec(Some(previous), fresh_version, fresh_sha256) == Decision::UpToDate,
{
}

/// A snapshot with a later version and another digest calls for an update.
pub proof fn lemma_newer_and_changed_needs_update(
    previous: ManifestView,
    fresh_version: Seq<char>,
    fresh_sha256: Seq<char>,
)
    requires
        previous.version matches Some(v) && !lex_le(fresh_version, v),
        previous.sha256 != Some(fresh_sha256),
    ensures
        decide_spec(Some(previous), fresh_version, fresh_sha256) == Decision::NeedsUpdate,
{
}

/// A run's parts, bound to one set of settings.
pub struct App {
    pub config: Config,
    pub archive_client: WebArchiveClient,
    pub git_helper: GitHelper,
    pub aur_manager: AurPackageManager,
}

impl App {
    /// The parts of a run, where the settings allow one.
    pub fn new(config: Config, key_exists: bool) -> (r: Result<App, AppError>)
        ensures
            match r {
                Ok(app) => key_exists && is_web_url(config.original_url@)
                    && config.package_name@.len() > 0 && app.config == config
                    && app.git_helper.ssh_key_path == config.ssh_key_path
                    && app.aur_manager.package_name == config.package_name
                    && app.aur_manager.original_url == config.original_url,
                Err(e) => if !key_exists {
                    e == AppError::SshAuthFailed
                } else if !is_web_url(config.original_url@) {
                    e is Archive && e->Archive_0@ == "Invalid URL format"@
                } else {
                    config.package_name@.len() == 0 && e is Archive && e->Archive_0@
                        == "Package name cannot be empty"@
                },
            },
    {
        match config.validate(key_exists) {
            Err(e) => Err(e),
            Ok(_) => {
                let git_helper = GitHelper::new(config.ssh_key_path.clone());
                let archive_client = WebArchiveClient::new();
                let aur_manager = AurPackageManager::new(
                    config.package_name.clone(),
                    config.original_url.clone(),
                );
                Ok(App { config, archive_client, git_helper, aur_manager })
            },
        }
    }

    /// What the build description `content` says of itself.
    pub fn read_manifest(&self, content: &str) -> (r: PublishedManifest)
        ensures
            r@ == manifest_of(content@),
    {
        let version = match self.aur_manager.extract_current_version(content) {
            Ok(v) => Some(v),
            Err(_) => None,
        };
        let sha256 = match self.aur_manager.extract_current_sha256(content) {
            Ok(h) => Some(h),
            Err(_) => None,
        };
        PublishedManifest { version, sha256 }
    }

    /// The decision on `archive_result` against the published description
    /// `manifest`, if there is one.
    pub fn decide(&self, manifest: Option<&str>, archive_result: &ArchiveResult) -> (r: Decision)
        ensures
            r == decide_spec(
                previous_of(
                    match manifest {
                        Some(c) => Some(c@),
                        None => None,
                    },
                ),
                archive_result.version@,
                archive_result.sha256@,
            ),
    {
        let previous = match manifest {
            Some(c) => Some(self.read_manifest(c)),
            None => None,
        };
        decide(&previous, archive_result)
    }

    /// Whether the package files must be written anew. A description that
    /// cannot be read calls for an update and is no error.
    pub fn needs_update(&self, manifest: Option<&str>, archive_result: &ArchiveResult) -> (r:
        Result<bool, AppError>)
        ensures
            r matches Ok(b) && b == (decide_spec(
                previous_of(
                    match manifest {
                        Some(c) => Some(c@),
                        None => None,
                    },
                ),
                archive_result.version@,
                archive_result.sha256@,
            ) != Decision::UpToDate),
    {
        match self.decide(manifest, archive_result) {
            Decision::UpToDate => Ok(false),
            _ => Ok(true),
        }
    }

    /// The package files for `archive_result`: the published description
    /// `existing` brought up to date, or a first one, and the source metadata.
    pub fn update_package(&self, existing: Option<&str>, archive_result: &ArchiveResult) -> (r:
        Result<PackageFiles, AppError>)
        ensures
            match package_files_spec(
                self.aur_manager.package_name@,
                self.aur_manager.original_url@,
                match existing {
                    Some(c) => Some(c@),
                    None => None,
                },
                archive_result.version@,
                archive_result.sha256@,
                archive_result.archive_url@,
            ) {
                Some(files) => r matches Ok(f) && f.pkgbuild@ == files.0 && f.srcinfo@ == files.1,
                None => r matches Err(e) && e is Archive && e->Archive_0@ == "Invalid pattern"@,
            },
    {
        let version = archive_result.version.as_str();
        let sha256 = archive_result.sha256.as_str();
        let pkgbuild = match existing {
            Some(c) => match self.aur_manager.update_pkgbuild(c, version, sha256) {
                Ok(p) => p,
                Err(e) => {
                    return Err(e);
                },
            },
            None => self.aur_manager.create_initial_pkgbuild(version, sha256),
        };
        match self.aur_manager.generate_srcinfo(
            version,
            sha256,
            archive_result.archive_url.as_str(),
        ) {
            Ok(srcinfo) => Ok(PackageFiles { pkgbuild, srcinfo }),
            Err(e) => Err(e),
        }
    }

    /// The commit and push that publish `version`.
    pub fn commit_and_push(&self, version: &str) -> (r: PublishPlan)
        ensures
            r.message@ == commit_message_spec(version@),
            r.pathspec@ == "*"@,
            r.update_ref@ == "HEAD"@,
            r.refspec@ == "refs/heads/master:refs/heads/master"@,
    {
        let message = String::from_str("Update to ").concat(version);
        self.git_helper.commit_and_push(message.as_str())
    }

    /// What remains of a run once the snapshot is there and the working copy
    /// prepared: nothing where the package is up to date, else the files to
    /// write and the commit to push.
    pub fn run(&self, manifest: Option<&str>, archive_result: &ArchiveResult) -> (r: Result<
        RunPlan,
        AppError,
    >)
        ensures
            match decide_spec(
                previous_of(
                    match manifest {
                        Some(c) => Some(c@),
                        None => None,
                    },
                ),
                archive_result.version@,
                archive_result.sha256@,
            ) {
                Decision::UpToDate => r matches Ok(p) && p is Nothing,
                _ => match package_files_spec(
                    self.aur_manager.package_name@,
                    self.aur_manager.original_url@,
                    match manifest {
                        Some(c) => Some(c@),
                        None => None,
                    },
                    archive_result.version@,
                    archive_result.sha256@,
                    archive_result.archive_url@,
                ) {
                    Some(files) => r matches Ok(p) && p matches RunPlan::Publish { files: f, publish }
                        && f.pkgbuild@ == files.0 && f.srcinfo@ == files.1 && publish.message@
                        == commit_message_spec(archive_result.version@) && publish.pathspec@
                        == "*"@ && publish.update_ref@ == "HEAD"@ && publish.refspec@
                        == "refs/heads/master:refs/heads/master"@,
                    None => r matches Err(e) && e is Archive && e->Archive_0@ == "Invalid pattern"@,
                },
            },
    {
        match self.decide(manifest, archive_result) {
            Decision::UpToDate => Ok(RunPlan::Nothing),
            _ => match self.update_package(manifest, archive_result) {
                Ok(files) => Ok(
                    RunPlan::Publish {
                        files,
                        publish: self.commit_and_push(archive_result.version.as_str()),
                    },
                ),
                Err(e) => Err(e),
            },
        }
    }
}

} // verus!
