//! The package files: reading the published version and digest out of the
//! build description, rewriting them, and writing both files anew.

use vstd::prelude::*;
use vstd::string::*;
use crate::error::AppError;

verus! {

/// What the first capture group of the leftmost match of the regular
/// expression `pattern` in `text` holds: `None` where `pattern` is no valid
/// expression, `Some(None)` where nothing matches or the group took no part.
pub uninterp spec fn regex_first_group(pattern: Seq<char>, text: Seq<char>) -> Option<
    Option<Seq<char>>,
>;

/// `text` with the leftmost match of the regular expression `pattern`
/// replaced by `replacement`, in which `$` refers to capture groups; `None`
/// where `pattern` is no valid expression.
pub uninterp spec fn regex_replaced(
    pattern: Seq<char>,
    text: Seq<char>,
    replacement: Seq<char>,
) -> Option<Seq<char>>;

/// Compiles `pattern` with `regex::Regex::new`, searches `text` with
/// `Regex::captures` and hands out group 1 (`Captures::get`). The outcome
/// depends on the two texts alone.
#[verifier::external_body]
fn first_group(pattern: &str, text: &str) -> (r: Option<Option<String>>)
    ensures
        match r {
            None => regex_first_group(pattern@, text@) is None,
            Some(None) => regex_first_group(pattern@, text@) == Some(None::<Seq<char>>),
            Some(Some(g)) => regex_first_group(pattern@, text@) == Some(Some(g@)),
        },
{
    match regex::Regex::new(pattern) {
        Ok(re) => match re.captures(text) {
            Some(c) => match c.get(1) {
                Some(m) => Some(Some(m.as_str().to_string())),
                None => Some(None),
            },
            None => Some(None),
        },
        Err(_) => None,
    }
}

/// Compiles `pattern` with `regex::Regex::new` and replaces the leftmost
/// match in `text` with `Regex::replace`. The outcome depends on the three
/// texts alone.
#[verifier::external_body]
fn replace_first(pattern: &str, text: &str, replacement: &str) -> (r: Option<String>)
    ensures
        match r {
            None => regex_replaced(pattern@, text@, replacement@) is None,
            Some(t) => regex_replaced(pattern@, text@, replacement@) == Some(t@),
        },
{
    match regex::Regex::new(pattern) {
        Ok(re) => Some(re.replace(text, replacement).into_owned()),
        Err(_) => None,
    }
}

/// The expression that finds the version line.
pub open spec fn pkgver_pattern() -> Seq<char> {
    "pkgver=([^\\s]+)"@
}

/// The expression that finds the digest line.
pub open spec fn sha256_pattern() -> Seq<char> {
    "sha256sums=\\('([^']+)'\\)"@
}

/// The expression that finds the release line.
pub open spec fn pkgrel_pattern() -> Seq<char> {
    "pkgrel=([^\\s]+)"@
}

/// The version that a build description names.
pub open spec fn manifest_version(content: Seq<char>) -> Option<Seq<char>> {
    match regex_first_group(pkgver_pattern(), content) {
        Some(Some(v)) => Some(v),
        _ => None,
    }
}

/// The digest that a build description names.
pub open spec fn manifest_sha256(content: Seq<char>) -> Option<Seq<char>> {
    match regex_first_group(sha256_pattern(), content) {
        Some(Some(v)) => Some(v),
        _ => None,
    }
}

/// A build description with version and digest replaced and the release set
/// back to 1.
pub open spec fn updated_manifest(content: Seq<char>, version: Seq<char>, sha256: Seq<char>)
    -> Option<Seq<char>> {
    match regex_replaced(pkgver_pattern(), content, "pkgver="@ + version) {
        None => None,
        Some(c1) => match regex_replaced(
            sha256_pattern(),
            c1,
            "sha256sums=('"@ + sha256 + "')"@,
        ) {
            None => None,
            Some(c2) => regex_replaced(pkgrel_pattern(), c2, "pkgrel=1"@),
        },
    }
}

/// The source metadata for a package at `version`, with digest `sha256`,
/// fetched from `url`.
pub open spec fn srcinfo_text(
    name: Seq<char>,
    version: Seq<char>,
    sha256: Seq<char>,
    url: Seq<char>,
) -> Seq<char> {
    "pkgbase = "@ + name
        + "\n\tpkgdesc = Contains the Key Database for the AACS Library (Daily Updates)\n\tpkgver = "@
        + version
        + "\n\tpkgrel = 1\n\turl = http://fvonline-db.bplaced.net/\n\tarch = any\n\tdepends = libaacs\n\tsource = keydb_eng-"@
        + version + ".zip::"@ + url + "\n\tsha256sums = "@ + sha256 + "\n\npkgname = "@ + name
        + "\n"@
}

/// A first build description for a package at `version` with digest `sha256`.
pub open spec fn initial_manifest(
    name: Seq<char>,
    original_url: Seq<char>,
    version: Seq<char>,
    sha256: Seq<char>,
) -> Seq<char> {
    "# Maintainer: DeepChirp <DeepChirp@outlook.com>\npkgname="@ + name + "\npkgver="@ + version
        + "\npkgrel=1\npkgdesc='Contains the Key Database for the AACS Library (Daily Updates)'\narch=('any')\nurl='http://fvonline-db.bplaced.net/'\ndepends=('libaacs')\nsource=(\"keydb_eng-${pkgver}.zip::https://web.archive.org/web/${pkgver}/"@
        + original_url + "\")\nsha256sums=('"@ + sha256
        + "')\n\npackage() {\n    install -d \"${pkgdir}/etc/xdg/aacs\" || return 1\n    install -Dm644 \"${srcdir}/keydb.cfg\" \"${pkgdir}/etc/xdg/aacs/KEYDB.cfg\" || return 1\n}\n"@
}

/// Reads and writes the files of one package.
pub struct AurPackageManager {
    pub package_name: String,
    pub original_url: String,
}

impl AurPackageManager {
    pub fn new(package_name: String, original_url: String) -> (r: Self)
        ensures
            r.package_name == package_name,
            r.original_url == original_url,
    {
        AurPackageManager { package_name, original_url }
    }

    /// The version found by a search for the version line.
    pub fn version_from_capture(capture: Option<Option<String>>) -> (r: Result<String, AppError>)
        ensures
            match r {
                Ok(v) => capture == Some(Some(v)),
                Err(e) => !(capture matches Some(Some(_))) && e == AppError::VersionNotFound,
            },
    {
        match capture {
            Some(Some(v)) => Ok(v),
            _ => Err(AppError::VersionNotFound),
        }
    }

    /// The digest found by a search for the digest line.
    pub fn sha256_from_capture(capture: Option<Option<String>>) -> (r: Result<String, AppError>)
        ensures
            match r {
                Ok(v) => capture == Some(Some(v)),
                Err(e) => !(capture matches Some(Some(_))) && e is Archive && e->Archive_0@
                    == "Could not find sha256sums in PKGBUILD"@,
            },
    {
        match capture {
            Some(Some(v)) => Ok(v),
            _ => Err(AppError::Archive(String::from_str("Could not find sha256sums in PKGBUILD"))),
        }
    }

    /// The version that the build description `content` names.
    pub fn extract_current_version(&self, content: &str) -> (r: Result<String, AppError>)
        ensures
            match r {
                Ok(v) => manifest_version(content@) == Some(v@),
                Err(e) => manifest_version(content@) is None && e == AppError::VersionNotFound,
            },
    {
        Self::version_from_capture(first_group("pkgver=([^\\s]+)", content))
    }

    /// The digest that the build description `content` names.
    pub fn extract_current_sha256(&self, content: &str) -> (r: Result<String, AppError>)
        ensures
            match r {
                Ok(v) => manifest_sha256(content@) == Some(v@),
                Err(e) => manifest_sha256(content@) is None && e is Archive && e->Archive_0@
                    == "Could not find sha256sums in PKGBUILD"@,
            },
    {
        Self::sha256_from_capture(first_group("sha256sums=\\('([^']+)'\\)", content))
    }

    /// The build description `content` brought to `new_version` and
    /// `new_sha256`, with the release set back to 1.
    pub fn update_pkgbuild(&self, content: &str, new_version: &str, new_sha256: &str) -> (r: Result<
        String,
        AppError,
    >)
        ensures
            match r {
                Ok(c) => updated_manifest(content@, new_version@, new_sha256@) == Some(c@),
                Err(e) => updated_manifest(content@, new_version@, new_sha256@) is None && e
                    is Archive && e->Archive_0@ == "Invalid pattern"@,
            },
    {
        let version_line = String::from_str("pkgver=").concat(new_version);
        let c1 = match replace_first("pkgver=([^\\s]+)", content, version_line.as_str()) {
            Some(c) => c,
            None => {
                return Err(AppError::Archive(String::from_str("Invalid pattern")));
            },
        };
        let sha_line = String::from_str("sha256sums=('").concat(new_sha256).concat("')");
        let c2 = match replace_first("sha256sums=\\('([^']+)'\\)", c1.as_str(), sha_line.as_str()) {
            Some(c) => c,
            None => {
                return Err(AppError::Archive(String::from_str("Invalid pattern")));
            },
        };
        match replace_first("pkgrel=([^\\s]+)", c2.as_str(), "pkgrel=1") {
            Some(c) => Ok(c),
            None => Err(AppError::Archive(String::from_str("Invalid pattern"))),
        }
    }

    /// The source metadata for `version`, `sha256` and the snapshot at `url`.
    pub fn generate_srcinfo(&self, version: &str, sha256: &str, url: &str) -> (r: Result<
        String,
        AppError,
    >)
        ensures
            r matches Ok(s) && s@ == srcinfo_text(
                self.package_name@,
                version@,
                sha256@,
                url@,
            ),
    {
        let name = self.package_name.as_str();
        let s = String::from_str("pkgbase = ").concat(name).concat(
            "\n\tpkgdesc = Contains the Key Database for the AACS Library (Daily Updates)\n\tpkgver = ",
        ).concat(version).concat(
            "\n\tpkgrel = 1\n\turl = http://fvonline-db.bplaced.net/\n\tarch = any\n\tdepends = libaacs\n\tsource = keydb_eng-",
        ).concat(version).concat(".zip::").concat(url).concat("\n\tsha256sums = ").concat(
            sha256,
        ).concat("\n\npkgname = ").concat(name).concat("\n");
        Ok(s)
    }

    /// A first build description for `version` and `sha256`.
    pub fn create_initial_pkgbuild(&self, version: &str, sha256: &str) -> (r: String)
        ensures
            r@ == initial_manifest(self.package_name@, self.original_url@, version@, sha256@),
    {
        String::from_str("# Maintainer: DeepChirp <DeepChirp@outlook.com>\npkgname=").concat(
            self.package_name.as_str(),
        ).concat("\npkgver=").concat(version).concat(
            "\npkgrel=1\npkgdesc='Contains the Key Database for the AACS Library (Daily Updates)'\narch=('any')\nurl='http://fvonline-db.bplaced.net/'\ndepends=('libaacs')\nsource=(\"keydb_eng-${pkgver}.zip::https://web.archive.org/web/${pkgver}/",
        ).concat(self.original_url.as_str()).concat("\")\nsha256sums=('").concat(sha256).concat(
            "')\n\npackage() {\n    install -d \"${pkgdir}/etc/xdg/aacs\" || return 1\n    install -Dm644 \"${srcdir}/keydb.cfg\" \"${pkgdir}/etc/xdg/aacs/KEYDB.cfg\" || return 1\n}\n",
        )
    }
}

} // verus!
