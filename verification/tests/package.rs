use keydb_updater::aur::AurPackageManager;
use keydb_updater::config::Config;
use keydb_updater::error::AppError;
use keydb_updater::git::{GitHelper, MergeAnalysis, PrepareStep, PushOutcome, SyncStep};

fn manager() -> AurPackageManager {
    AurPackageManager::new(
        "aacs-keydb-daily".to_string(),
        "http://fvonline-db.bplaced.net/export/keydb_eng.zip".to_string(),
    )
}

fn analysis(up_to_date: bool, fast_forward: bool, normal: bool, unborn: bool) -> MergeAnalysis {
    MergeAnalysis { up_to_date, fast_forward, normal, unborn }
}

#[test]
fn manifest_round_trip() {
    let m = manager();
    let first = m.create_initial_pkgbuild("20240101000000", "abc123");
    assert!(matches!(m.extract_current_version(&first), Ok(v) if v == "20240101000000"));
    assert!(matches!(m.extract_current_sha256(&first), Ok(h) if h == "abc123"));
    let second = match m.update_pkgbuild(&first, "20240201000000", "def456") {
        Ok(c) => c,
        Err(e) => panic!("{}", e.message()),
    };
    assert!(matches!(m.extract_current_version(&second), Ok(v) if v == "20240201000000"));
    assert!(matches!(m.extract_current_sha256(&second), Ok(h) if h == "def456"));
}

#[test]
fn initial_manifest_text() {
    let m = manager();
    let expected = "# Maintainer: DeepChirp <DeepChirp@outlook.com>\npkgname=aacs-keydb-daily\npkgver=20240101000000\npkgrel=1\npkgdesc='Contains the Key Database for the AACS Library (Daily Updates)'\narch=('any')\nurl='http://fvonline-db.bplaced.net/'\ndepends=('libaacs')\nsource=(\"keydb_eng-${pkgver}.zip::https://web.archive.org/web/${pkgver}/http://fvonline-db.bplaced.net/export/keydb_eng.zip\")\nsha256sums=('abc123')\n\npackage() {\n    install -d \"${pkgdir}/etc/xdg/aacs\" || return 1\n    install -Dm644 \"${srcdir}/keydb.cfg\" \"${pkgdir}/etc/xdg/aacs/KEYDB.cfg\" || return 1\n}\n";
    assert_eq!(m.create_initial_pkgbuild("20240101000000", "abc123"), expected);
}

#[test]
fn update_rewrites_three_lines() {
    let m = manager();
    let before = "pkgname=x\npkgver=1\npkgrel=7\nsha256sums=('aa')\n";
    match m.update_pkgbuild(before, "2", "bb") {
        Ok(after) => assert_eq!(after, "pkgname=x\npkgver=2\npkgrel=1\nsha256sums=('bb')\n"),
        Err(e) => panic!("{}", e.message()),
    }
    match m.update_pkgbuild("nothing to change", "2", "bb") {
        Ok(after) => assert_eq!(after, "nothing to change"),
        Err(e) => panic!("{}", e.message()),
    }
}

#[test]
fn extraction_takes_the_first_match() {
    let m = manager();
    assert!(matches!(m.extract_current_version("pkgver=1.2 \npkgver=3\n"), Ok(v) if v == "1.2"));
    assert!(matches!(
        m.extract_current_sha256("sha256sums=('')\nsha256sums=('ff')"),
        Ok(h) if h == "ff"
    ));
}

#[test]
fn extraction_errors() {
    let m = manager();
    assert!(matches!(m.extract_current_version("pkgrel=1\n"), Err(AppError::VersionNotFound)));
    assert!(matches!(m.extract_current_version("pkgver= \n"), Err(AppError::VersionNotFound)));
    match m.extract_current_sha256("pkgver=1\n") {
        Err(AppError::Archive(msg)) => assert_eq!(msg, "Could not find sha256sums in PKGBUILD"),
        _ => panic!("no digest line was there"),
    }
    assert!(matches!(
        AurPackageManager::version_from_capture(None),
        Err(AppError::VersionNotFound)
    ));
    assert!(matches!(
        AurPackageManager::version_from_capture(Some(None)),
        Err(AppError::VersionNotFound)
    ));
    assert!(matches!(
        AurPackageManager::version_from_capture(Some(Some("7".to_string()))),
        Ok(v) if v == "7"
    ));
    assert!(matches!(
        AurPackageManager::sha256_from_capture(Some(Some("ab".to_string()))),
        Ok(v) if v == "ab"
    ));
    assert!(matches!(AurPackageManager::sha256_from_capture(None), Err(AppError::Archive(_))));
}

#[test]
fn srcinfo_text() {
    let m = manager();
    let expected = "pkgbase = aacs-keydb-daily\n\tpkgdesc = Contains the Key Database for the AACS Library (Daily Updates)\n\tpkgver = 20240101000000\n\tpkgrel = 1\n\turl = http://fvonline-db.bplaced.net/\n\tarch = any\n\tdepends = libaacs\n\tsource = keydb_eng-20240101000000.zip::https://web.archive.org/web/20240101000000/u\n\tsha256sums = abc123\n\npkgname = aacs-keydb-daily\n";
    match m.generate_srcinfo("20240101000000", "abc123", "https://web.archive.org/web/20240101000000/u") {
        Ok(s) => assert_eq!(s, expected),
        Err(e) => panic!("{}", e.message()),
    }
}

#[test]
fn default_settings() {
    let c = Config::new(Some("/keys/id_ed25519".to_string()));
    assert_eq!(c.package_name, "aacs-keydb-daily");
    assert_eq!(c.original_url, "http://fvonline-db.bplaced.net/export/keydb_eng.zip");
    assert_eq!(c.work_dir, "/tmp/aur-aacs-keydb-daily");
    assert_eq!(c.ssh_key_path, "/keys/id_ed25519");
    let d = Config::new(None);
    assert!(d.ssh_key_path.ends_with("/.ssh/id_ed25519"));
    assert!(!d.ssh_key_path.starts_with('~'));
    assert!(d.ssh_key_path.len() > "~/.ssh/id_ed25519".len() - 1);
    let other = Config::new(Some("~other/key".to_string()));
    assert_eq!(other.ssh_key_path, "~other/key");
}

#[test]
fn settings_are_validated_in_order() {
    let mut c = Config::with_key_path("/keys/id".to_string());
    assert!(c.validate(true).is_ok());
    assert!(matches!(c.validate(false), Err(AppError::SshAuthFailed)));
    c.original_url = "https://example.org/a.zip".to_string();
    assert!(c.validate(true).is_ok());
    c.original_url = "ftp://example.org/a.zip".to_string();
    match c.validate(true) {
        Err(AppError::Archive(m)) => assert_eq!(m, "Invalid URL format"),
        _ => panic!("the address is no web address"),
    }
    c.package_name = String::new();
    assert!(matches!(c.validate(false), Err(AppError::SshAuthFailed)));
    match c.validate(true) {
        Err(AppError::Archive(m)) => assert_eq!(m, "Invalid URL format"),
        _ => panic!("the address is checked before the name"),
    }
    c.original_url = "http://example.org/a.zip".to_string();
    match c.validate(true) {
        Err(AppError::Archive(m)) => assert_eq!(m, "Package name cannot be empty"),
        _ => panic!("the name is empty"),
    }
}

#[test]
fn error_messages() {
    assert_eq!(AppError::Archive("a".to_string()).message(), "Archive error: a");
    assert_eq!(AppError::Git("g".to_string()).message(), "Git error: g");
    assert_eq!(AppError::Io("i".to_string()).message(), "IO error: i");
    assert_eq!(AppError::Http("h".to_string()).message(), "HTTP error: h");
    assert_eq!(AppError::VersionNotFound.message(), "Package version not found in PKGBUILD");
    assert_eq!(AppError::SshAuthFailed.message(), "SSH authentication failed");
    assert_eq!(AppError::SyncConflict.message(), "Repository history has diverged");
}

#[test]
fn working_copy_is_cloned_or_fetched() {
    let g = GitHelper::new("/keys/id".to_string());
    assert_eq!(g.ssh_key_path, "/keys/id");
    assert_eq!(g.repo_url("aacs-keydb-daily"), "ssh://aur@aur.archlinux.org/aacs-keydb-daily.git");
    match g.prepare_aur_repo(false, "aacs-keydb-daily") {
        PrepareStep::CloneFrom { url } => {
            assert_eq!(url, "ssh://aur@aur.archlinux.org/aacs-keydb-daily.git")
        }
        _ => panic!("nothing is on disk"),
    }
    match g.prepare_aur_repo(true, "aacs-keydb-daily") {
        PrepareStep::Fetch { refspec } => assert_eq!(refspec, "refs/heads/*:refs/heads/*"),
        _ => panic!("a working copy is on disk"),
    }
}

#[test]
fn diverged_history_is_refused() {
    let g = GitHelper::new("/keys/id".to_string());
    assert!(matches!(
        g.after_fetch(analysis(false, false, true, false)),
        Err(AppError::SyncConflict)
    ));
    assert!(matches!(
        g.after_fetch(analysis(false, false, false, false)),
        Err(AppError::SyncConflict)
    ));
}

#[test]
fn fast_forward_and_up_to_date() {
    let g = GitHelper::new("/keys/id".to_string());
    assert!(matches!(
        g.after_fetch(analysis(false, true, true, false)),
        Ok(SyncStep::FastForward)
    ));
    assert!(matches!(
        g.after_fetch(analysis(false, true, false, true)),
        Ok(SyncStep::FastForward)
    ));
    assert!(matches!(g.after_fetch(analysis(true, false, false, false)), Ok(SyncStep::Keep)));
}

#[test]
fn push_outcomes() {
    let g = GitHelper::new("/keys/id".to_string());
    assert!(g.after_push(PushOutcome::Accepted).is_ok());
    assert!(matches!(g.after_push(PushOutcome::NonFastForward), Err(AppError::SyncConflict)));
    assert!(matches!(g.after_push(PushOutcome::AuthRejected), Err(AppError::SshAuthFailed)));
    match g.after_push(PushOutcome::Failed("remote hung up".to_string())) {
        Err(AppError::Git(m)) => assert_eq!(m, "remote hung up"),
        _ => panic!("the push failed"),
    }
    let plan = g.commit_and_push("Update to 20240101000000");
    assert_eq!(plan.message, "Update to 20240101000000");
    assert_eq!(plan.refspec, "refs/heads/master:refs/heads/master");
}
