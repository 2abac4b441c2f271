use keydb_updater::app::{decide, judge, App, Decision, PublishedManifest, RunPlan, Verdict};
use keydb_updater::archive::ArchiveResult;
use keydb_updater::config::Config;
use keydb_updater::text::text_le;

const URL_JAN: &str =
    "https://web.archive.org/web/20240101000000/http://fvonline-db.bplaced.net/export/keydb_eng.zip";
const URL_FEB: &str =
    "https://web.archive.org/web/20240201000000/http://fvonline-db.bplaced.net/export/keydb_eng.zip";

fn fresh(version: &str, sha256: &str, archive_url: &str) -> ArchiveResult {
    ArchiveResult {
        original_url: "http://fvonline-db.bplaced.net/export/keydb_eng.zip".to_string(),
        archive_url: archive_url.to_string(),
        timestamp: 1_704_067_200,
        sha256: sha256.to_string(),
        version: version.to_string(),
        version_synthesized: false,
    }
}

fn published(version: Option<&str>, sha256: Option<&str>) -> Option<PublishedManifest> {
    Some(PublishedManifest {
        version: version.map(|v| v.to_string()),
        sha256: sha256.map(|h| h.to_string()),
    })
}

fn app() -> App {
    match App::new(Config::with_key_path("/keys/id_ed25519".to_string()), true) {
        Ok(a) => a,
        Err(e) => panic!("settings refused: {}", e.message()),
    }
}

#[test]
fn lexical_order_follows_time() {
    let tokens = [
        "19991231235959",
        "20240101000000",
        "20240101000001",
        "20240131235959",
        "20240201000000",
        "20241231000000",
    ];
    for (i, a) in tokens.iter().enumerate() {
        for (j, b) in tokens.iter().enumerate() {
            let a_num: u64 = a.parse().unwrap();
            let b_num: u64 = b.parse().unwrap();
            assert_eq!(text_le(a, b), a_num <= b_num);
            assert_eq!(text_le(a, b), i <= j);
        }
    }
}

#[test]
fn lexical_order_on_unequal_lengths() {
    assert!(text_le("", "1"));
    assert!(!text_le("1", ""));
    assert!(text_le("2024", "20240101"));
    assert!(!text_le("20240101", "2024"));
    assert!(text_le("", ""));
}

#[test]
fn lexical_order_is_that_of_strings() {
    let words = ["", "a", "ab", "b", "z", "\u{e9}", "\u{4e2d}", "\u{1f600}", "20240101000000"];
    for a in words.iter() {
        for b in words.iter() {
            assert_eq!(text_le(a, b), a <= b);
        }
    }
}

#[test]
fn no_manifest_is_first_publish() {
    let f = fresh("20240101000000", "abc", URL_JAN);
    assert_eq!(decide(&None, &f), Decision::FirstPublish);
    assert_eq!(judge(&None, &f), Verdict::NoManifest);
    let empty = fresh("", "", "");
    assert_eq!(decide(&None, &empty), Decision::FirstPublish);
}

#[test]
fn not_newer_is_up_to_date() {
    let f = fresh("20240101000000", "new", URL_JAN);
    assert_eq!(decide(&published(Some("20240101000000"), Some("old")), &f), Decision::UpToDate);
    assert_eq!(decide(&published(Some("20240201000000"), Some("old")), &f), Decision::UpToDate);
    assert_eq!(decide(&published(Some("20240201000000"), None), &f), Decision::UpToDate);
    assert_eq!(judge(&published(Some("20240201000000"), Some("old")), &f), Verdict::NotNewer);
}

#[test]
fn newer_with_same_hash_is_up_to_date() {
    let f = fresh("20240201000000", "abc", URL_FEB);
    let p = published(Some("20240101000000"), Some("abc"));
    assert_eq!(decide(&p, &f), Decision::UpToDate);
    assert_eq!(judge(&p, &f), Verdict::SameContent);
}

#[test]
fn newer_with_other_hash_needs_update() {
    let f = fresh("20240201000000", "def", URL_FEB);
    let p = published(Some("20240101000000"), Some("abc"));
    assert_eq!(decide(&p, &f), Decision::NeedsUpdate);
    assert_eq!(judge(&p, &f), Verdict::ContentChanged);
}

#[test]
fn older_with_other_hash_is_up_to_date() {
    let f = fresh("20231201000000", "def", URL_JAN);
    let p = published(Some("20240101000000"), Some("abc"));
    assert_eq!(decide(&p, &f), Decision::UpToDate);
}

#[test]
fn unreadable_manifest_needs_update() {
    let f = fresh("20240201000000", "def", URL_FEB);
    assert_eq!(judge(&published(None, Some("abc")), &f), Verdict::VersionUnreadable);
    assert_eq!(decide(&published(None, Some("abc")), &f), Decision::NeedsUpdate);
    assert_eq!(judge(&published(Some("20240101000000"), None), &f), Verdict::HashUnreadable);
    assert_eq!(decide(&published(Some("20240101000000"), None), &f), Decision::NeedsUpdate);
    let a = app();
    assert_eq!(a.decide(Some("nothing of use"), &f), Decision::NeedsUpdate);
    assert!(matches!(a.needs_update(Some("nothing of use"), &f), Ok(true)));
}

#[test]
fn first_run_publishes() {
    let a = app();
    let f = fresh("20240101000000", "abc123", URL_JAN);
    assert_eq!(a.decide(None, &f), Decision::FirstPublish);
    assert!(matches!(a.needs_update(None, &f), Ok(true)));
    match a.run(None, &f) {
        Ok(RunPlan::Publish { files, publish }) => {
            assert!(files.pkgbuild.contains("\npkgver=20240101000000\n"));
            assert!(files.pkgbuild.contains("\nsha256sums=('abc123')\n"));
            assert!(files.srcinfo.contains("\tpkgver = 20240101000000\n"));
            assert!(files.srcinfo.contains("\tsha256sums = abc123\n"));
            assert_eq!(publish.message, "Update to 20240101000000");
            assert_eq!(publish.refspec, "refs/heads/master:refs/heads/master");
            assert_eq!(publish.update_ref, "HEAD");
            assert_eq!(publish.pathspec, "*");
        }
        _ => panic!("a first publish was expected"),
    }
}

#[test]
fn same_snapshot_changes_nothing() {
    let a = app();
    let manifest = a.aur_manager.create_initial_pkgbuild("20240101000000", "abc123");
    let f = fresh("20240101000000", "abc123", URL_JAN);
    assert_eq!(a.decide(Some(&manifest), &f), Decision::UpToDate);
    assert!(matches!(a.needs_update(Some(&manifest), &f), Ok(false)));
    assert!(matches!(a.run(Some(&manifest), &f), Ok(RunPlan::Nothing)));
}

#[test]
fn newer_snapshot_is_published() {
    let a = app();
    let manifest = a.aur_manager.create_initial_pkgbuild("20240101000000", "abc123");
    let f = fresh("20240201000000", "def456", URL_FEB);
    assert_eq!(a.decide(Some(&manifest), &f), Decision::NeedsUpdate);
    match a.run(Some(&manifest), &f) {
        Ok(RunPlan::Publish { files, publish }) => {
            let again = a.read_manifest(&files.pkgbuild);
            assert_eq!(again.version.as_deref(), Some("20240201000000"));
            assert_eq!(again.sha256.as_deref(), Some("def456"));
            assert!(!files.pkgbuild.contains("abc123"));
            assert!(files.srcinfo.contains(URL_FEB));
            assert_eq!(publish.message, "Update to 20240201000000");
        }
        _ => panic!("an update was expected"),
    }
}

#[test]
fn app_new_checks_settings() {
    let good = Config::with_key_path("/keys/id".to_string());
    assert!(matches!(
        App::new(good.clone(), false),
        Err(keydb_updater::error::AppError::SshAuthFailed)
    ));
    match App::new(good, true) {
        Ok(a) => {
            assert_eq!(a.git_helper.ssh_key_path, "/keys/id");
            assert_eq!(a.aur_manager.package_name, "aacs-keydb-daily");
            assert_eq!(
                a.aur_manager.original_url,
                "http://fvonline-db.bplaced.net/export/keydb_eng.zip"
            );
        }
        Err(_) => panic!("settings refused"),
    }
}
