//! Package specifications, and making a package available on disk.

use crate::path::{join, joined};
use crate::text::{decimal, push_decimal};
use vstd::prelude::*;

verus! {

/// A package's version.
#[derive(Debug, Copy, Clone, PartialEq, Eq, Hash)]
pub struct PackageVersion {
    pub major: u32,
    pub minor: u32,
    pub patch: u32,
}

/// Identifies a package: the namespace it lives in, its name there, and its
/// version.
#[derive(Debug, PartialEq, Eq, Hash)]
pub struct PackageSpec {
    pub namespace: String,
    pub name: String,
    pub version: PackageVersion,
}

/// What a package specification holds.
pub struct PackageSpecView {
    pub namespace: Seq<char>,
    pub name: Seq<char>,
    pub version: PackageVersion,
}

impl View for PackageSpec {
    type V = PackageSpecView;

    open spec fn view(&self) -> PackageSpecView {
        PackageSpecView { namespace: self.namespace@, name: self.name@, version: self.version }
    }
}

impl Clone for PackageSpec {
    fn clone(&self) -> (r: Self)
        ensures
            r == *self,
    {
        PackageSpec {
            namespace: self.namespace.clone(),
            name: self.name.clone(),
            version: self.version,
        }
    }
}

/// Why a package could not be made available.
#[derive(Debug, PartialEq, Eq, Hash)]
pub enum PackageError {
    /// The package does not exist.
    NotFound(PackageSpec),
    /// The package could not be retrieved through the network.
    NetworkFailed(Option<String>),
    /// The package archive could not be unpacked.
    MalformedArchive(Option<String>),
    /// Another failure, with details where there are any.
    Other(Option<String>),
}

/// A copy of an optional detail message.
pub fn clone_detail(detail: &Option<String>) -> (r: Option<String>)
    ensures
        r == *detail,
{
    match detail {
        Some(text) => Some(text.clone()),
        None => None,
    }
}

impl Clone for PackageError {
    fn clone(&self) -> (r: Self)
        ensures
            r == *self,
    {
        match self {
            PackageError::NotFound(spec) => PackageError::NotFound(spec.clone()),
            PackageError::NetworkFailed(detail) => PackageError::NetworkFailed(clone_detail(detail)),
            PackageError::MalformedArchive(detail) => PackageError::MalformedArchive(
                clone_detail(detail),
            ),
            PackageError::Other(detail) => PackageError::Other(clone_detail(detail)),
        }
    }
}

/// The text of a package specification: `@<namespace>/<name>:<version>`.
pub open spec fn spec_text(spec: PackageSpecView) -> Seq<char> {
    "@"@ + spec.namespace + "/"@ + spec.name + ":"@ + version_text(spec.version)
}

/// `lead`, then `detail` in round brackets.
pub open spec fn bracketed(lead: Seq<char>, detail: Seq<char>) -> Seq<char> {
    lead + " ("@ + detail + ")"@
}

/// Builds `lead`, then `detail` in round brackets.
pub fn with_detail(lead: &str, detail: &str) -> (text: String)
    ensures
        text@ == bracketed(lead@, detail@),
{
    let mut out = String::from_str(lead);
    out.append(" (");
    out.append(detail);
    out.append(")");
    out
}

/// Appends the text of a package specification.
pub fn push_spec(out: &mut String, spec: &PackageSpec)
    ensures
        final(out)@ == old(out)@ + spec_text(spec@),
{
    out.append("@");
    out.append(spec.namespace.as_str());
    out.append("/");
    out.append(spec.name.as_str());
    out.append(":");
    push_version(out, &spec.version);
    assert(final(out)@ =~= old(out)@ + spec_text(spec@));
}

impl PackageError {
    /// What the error says to a reader.
    pub open spec fn message_text(self) -> Seq<char> {
        match self {
            PackageError::NotFound(spec) => bracketed(
                "package not found"@,
                "searched for "@ + spec_text(spec@),
            ),
            PackageError::NetworkFailed(Some(detail)) => bracketed(
                "failed to download package"@,
                detail@,
            ),
            PackageError::NetworkFailed(None) => "failed to download package"@,
            PackageError::MalformedArchive(Some(detail)) => bracketed(
                "failed to decompress package"@,
                detail@,
            ),
            PackageError::MalformedArchive(None) => bracketed(
                "failed to decompress package"@,
                "archive malformed"@,
            ),
            PackageError::Other(Some(detail)) => bracketed("failed to load package"@, detail@),
            PackageError::Other(None) => "failed to load package"@,
        }
    }

    /// The message of the error.
    pub fn message(&self) -> (text: String)
        ensures
            text@ == self.message_text(),
    {
        match self {
            PackageError::NotFound(spec) => {
                let mut detail = String::from_str("searched for ");
                push_spec(&mut detail, spec);
                with_detail("package not found", detail.as_str())
            },
            PackageError::NetworkFailed(Some(detail)) => with_detail(
                "failed to download package",
                detail.as_str(),
            ),
            PackageError::NetworkFailed(None) => String::from_str("failed to download package"),
            PackageError::MalformedArchive(Some(detail)) => with_detail(
                "failed to decompress package",
                detail.as_str(),
            ),
            PackageError::MalformedArchive(None) => with_detail(
                "failed to decompress package",
                "archive malformed",
            ),
            PackageError::Other(Some(detail)) => with_detail(
                "failed to load package",
                detail.as_str(),
            ),
            PackageError::Other(None) => String::from_str("failed to load package"),
        }
    }
}

/// Why a download failed: the HTTP status, where the server answered with
/// one, and the report of the failure.
#[derive(Debug)]
pub struct FetchError {
    pub status: Option<u16>,
    pub message: String,
}

/// The text of a version: its three numbers, separated by dots.
pub open spec fn version_text(version: PackageVersion) -> Seq<char> {
    decimal(version.major as nat) + "."@ + decimal(version.minor as nat) + "."@ + decimal(
        version.patch as nat,
    )
}

/// Where a package lies below a data or cache directory:
/// `typst/packages/<namespace>/<name>/<version>`.
pub open spec fn subdir_text(spec: PackageSpecView) -> Seq<char> {
    "typst/packages/"@ + spec.namespace + "/"@ + spec.name + "/"@ + version_text(spec.version)
}

/// Where the archive of a package of the `preview` namespace is fetched from:
/// `https://packages.typst.org/preview/<name>-<version>.tar.gz`.
pub open spec fn url_text(spec: PackageSpecView) -> Seq<char> {
    "https://packages.typst.org/preview/"@ + spec.name + "-"@ + version_text(spec.version)
        + ".tar.gz"@
}

/// The package lives in the `preview` namespace, the only one that is
/// fetched on demand.
pub open spec fn is_preview(spec: PackageSpecView) -> bool {
    spec.namespace == "preview"@
}

/// Appends the text of a version.
pub fn push_version(out: &mut String, version: &PackageVersion)
    ensures
        final(out)@ == old(out)@ + version_text(*version),
{
    push_decimal(out, version.major as u64);
    out.append(".");
    push_decimal(out, version.minor as u64);
    out.append(".");
    push_decimal(out, version.patch as u64);
}

/// The directory of a package below a data or cache directory.
pub fn package_subdir(spec: &PackageSpec) -> (subdir: String)
    ensures
        subdir@ == subdir_text(spec@),
{
    let mut out = String::from_str("typst/packages/");
    out.append(spec.namespace.as_str());
    out.append("/");
    out.append(spec.name.as_str());
    out.append("/");
    push_version(&mut out, &spec.version);
    out
}

/// The address of the archive of a package.
pub fn package_url(spec: &PackageSpec) -> (url: String)
    ensures
        url@ == url_text(spec@),
{
    let mut out = String::from_str("https://packages.typst.org/preview/");
    out.append(spec.name.as_str());
    out.append("-");
    push_version(&mut out, &spec.version);
    out.append(".tar.gz");
    out
}

/// What a failed download means for the package: a 404 says that it does
/// not exist, anything else that the network failed.
pub open spec fn fetch_failure(spec: PackageSpec, error: FetchError) -> PackageError {
    if error.status == Some(404u16) {
        PackageError::NotFound(spec)
    } else {
        PackageError::NetworkFailed(Some(error.message))
    }
}

/// Maps a failed download to the error of the package.
pub fn map_fetch_error(spec: &PackageSpec, error: FetchError) -> (mapped: PackageError)
    ensures
        mapped == fetch_failure(*spec, error),
{
    match error.status {
        Some(status) => {
            if status == 404 {
                return PackageError::NotFound(spec.clone());
            }
        },
        None => {},
    }
    PackageError::NetworkFailed(Some(error.message))
}

/// The three steps of a download may be taken for the package `spec` and
/// the directory `dir`: the one address is fetched, any archive is unpacked
/// into `dir`, and `dir` is removed.
pub open spec fn download_ready<
    D: FnOnce(String) -> Result<Vec<u8>, FetchError>,
    U: FnOnce(Vec<u8>, String) -> Result<(), String>,
    C: FnOnce(String) -> (),
>(spec: PackageSpec, dir: Seq<char>, download: D, unpack: U, remove_dir_all: C) -> bool {
    &&& forall|url: String| url@ == url_text(spec@) ==> #[trigger] download.requires((url,))
    &&& forall|archive: Vec<u8>, at: String|
        at@ == dir ==> #[trigger] unpack.requires((archive, at))
    &&& forall|at: String| at@ == dir ==> #[trigger] remove_dir_all.requires((at,))
}

/// `result` is a possible outcome of downloading the package `spec` into
/// `dir`.
///
/// One request is made, for the address of the package. If it fails, the
/// failure is mapped and nothing is unpacked. Otherwise the archive is
/// unpacked into `dir`; if that fails, `dir` is removed and the archive is
/// reported as malformed.
pub open spec fn downloaded<
    D: FnOnce(String) -> Result<Vec<u8>, FetchError>,
    U: FnOnce(Vec<u8>, String) -> Result<(), String>,
    C: FnOnce(String) -> (),
>(
    spec: PackageSpec,
    dir: Seq<char>,
    download: D,
    unpack: U,
    remove_dir_all: C,
    result: Result<(), PackageError>,
) -> bool {
    exists|url: String, fetched: Result<Vec<u8>, FetchError>|
        {
            &&& url@ == url_text(spec@)
            &&& #[trigger] download.ensures((url,), fetched)
            &&& match fetched {
                Err(error) => result == Err::<(), PackageError>(fetch_failure(spec, error)),
                Ok(archive) => exists|at: String, unpacked: Result<(), String>|
                    {
                        &&& at@ == dir
                        &&& #[trigger] unpack.ensures((archive, at), unpacked)
                        &&& match unpacked {
                            Ok(_) => result == Ok::<(), PackageError>(()),
                            Err(message) => {
                                &&& exists|gone: String|
                                    gone@ == dir && #[trigger] remove_dir_all.ensures((gone,), ())
                                &&& result == Err::<(), PackageError>(
                                    PackageError::MalformedArchive(Some(message)),
                                )
                            },
                        }
                    },
            }
        }
}

/// Download a package over the network.
///
/// Only the `preview` namespace supports on-demand fetching.
pub fn download_package<D, U, C>(
    spec: &PackageSpec,
    package_dir: &str,
    download: D,
    unpack: U,
    remove_dir_all: C,
) -> (result: Result<(), PackageError>) where
    D: FnOnce(String) -> Result<Vec<u8>, FetchError>,
    U: FnOnce(Vec<u8>, String) -> Result<(), String>,
    C: FnOnce(String) -> (),

    requires
        is_preview(spec@),
        download_ready(*spec, package_dir@, download, unpack, remove_dir_all),
    ensures
        downloaded(*spec, package_dir@, download, unpack, remove_dir_all, result),
{
    let data = match download(package_url(spec)) {
        Ok(data) => data,
        Err(error) => {
            return Err(map_fetch_error(spec, error));
        },
    };
    match unpack(data, String::from_str(package_dir)) {
        Ok(_) => Ok(()),
        Err(message) => {
            remove_dir_all(String::from_str(package_dir));
            Err(PackageError::MalformedArchive(Some(message)))
        },
    }
}

/// What the outside world showed while a package was prepared. Each field
/// counts only where the step it belongs to was taken.
pub struct Observed {
    /// The package's directory below the data directory exists.
    pub in_data: bool,
    /// The package's directory below the cache directory existed before any
    /// download.
    pub in_cache: bool,
    /// How the download ended.
    pub download: Result<(), PackageError>,
    /// The package's directory below the cache directory exists in the end.
    pub in_cache_after: bool,
}

/// A download is due: the package is of the `preview` namespace and not in
/// the cache yet.
pub open spec fn download_due(spec: PackageSpec, seen: Observed) -> bool {
    is_preview(spec@) && !seen.in_cache
}

/// Where the package is found, given what was observed.
///
/// A copy below the data directory wins. Else the cache directory is asked,
/// after a download where one is due: a failed download is the result, and
/// so is the cached copy if it exists in the end. Everything else is
/// `NotFound`.
pub open spec fn resolution(
    spec: PackageSpec,
    data_dir: Option<String>,
    cache_dir: Option<String>,
    seen: Observed,
) -> Result<Seq<char>, PackageError> {
    if data_dir is Some && seen.in_data {
        Ok(joined(data_dir->0@, subdir_text(spec@)))
    } else if cache_dir is None {
        Err(PackageError::NotFound(spec))
    } else if download_due(spec, seen) && seen.download is Err {
        Err(seen.download->Err_0)
    } else if seen.in_cache_after {
        Ok(joined(cache_dir->0@, subdir_text(spec@)))
    } else {
        Err(PackageError::NotFound(spec))
    }
}

/// `dir_exists` may answer `present` for the directory `dir`.
pub open spec fn probed<E: Fn(String) -> bool>(dir_exists: E, dir: Seq<char>, present: bool) -> bool {
    exists|at: String| at@ == dir && #[trigger] dir_exists.ensures((at,), present)
}

/// `seen` is what the steps that were taken may have shown.
///
/// The data directory is asked first. The cache directory comes into play
/// only if the package was not found there: it is asked before a download
/// only for the `preview` namespace, the download follows only if it is
/// due, and the cache directory is asked in the end unless the download
/// failed.
pub open spec fn observed<
    E: Fn(String) -> bool,
    D: FnOnce(String) -> Result<Vec<u8>, FetchError>,
    U: FnOnce(Vec<u8>, String) -> Result<(), String>,
    C: FnOnce(String) -> (),
>(
    spec: PackageSpec,
    data_dir: Option<String>,
    cache_dir: Option<String>,
    dir_exists: E,
    download: D,
    unpack: U,
    remove_dir_all: C,
    seen: Observed,
) -> bool {
    &&& data_dir is Some ==> probed(
        dir_exists,
        joined(data_dir->0@, subdir_text(spec@)),
        seen.in_data,
    )
    &&& cache_dir is Some && !(data_dir is Some && seen.in_data) ==> {
        let dir = joined(cache_dir->0@, subdir_text(spec@));
        &&& is_preview(spec@) ==> probed(dir_exists, dir, seen.in_cache)
        &&& download_due(spec, seen) ==> downloaded(
            spec,
            dir,
            download,
            unpack,
            remove_dir_all,
            seen.download,
        )
        &&& !(download_due(spec, seen) && seen.download is Err) ==> probed(
            dir_exists,
            dir,
            seen.in_cache_after,
        )
    }
}

/// `result` is the resolution `found`.
pub open spec fn resolves(result: Result<String, PackageError>, found: Result<
    Seq<char>,
    PackageError,
>) -> bool {
    match (result, found) {
        (Ok(dir), Ok(text)) => dir@ == text,
        (Err(e), Err(g)) => e == g,
        _ => false,
    }
}

/// The steps of preparing the package `spec` may be taken: `dir_exists`
/// accepts the package's directory below the data and the cache directory,
/// and for a package of the `preview` namespace the three steps of a
/// download into the cache are ready. For any other namespace nothing is
/// asked of `download`, `unpack` and `remove_dir_all`.
pub open spec fn may_prepare<
    E: Fn(String) -> bool,
    D: FnOnce(String) -> Result<Vec<u8>, FetchError>,
    U: FnOnce(Vec<u8>, String) -> Result<(), String>,
    C: FnOnce(String) -> (),
>(
    spec: PackageSpec,
    data_dir: Option<String>,
    cache_dir: Option<String>,
    dir_exists: E,
    download: D,
    unpack: U,
    remove_dir_all: C,
) -> bool {
    &&& forall|at: String|
        {
            ||| data_dir is Some && at@ == joined(data_dir->0@, subdir_text(spec@))
            ||| cache_dir is Some && at@ == joined(cache_dir->0@, subdir_text(spec@))
        } ==> #[trigger] dir_exists.requires((at,))
    &&& is_preview(spec@) && cache_dir is Some ==> download_ready(
        spec,
        joined(cache_dir->0@, subdir_text(spec@)),
        download,
        unpack,
        remove_dir_all,
    )
}

/// Whether a package is of the `preview` namespace.
pub fn in_preview(spec: &PackageSpec) -> (preview: bool)
    ensures
        preview == is_preview(spec@),
{
    let preview = String::from_str("preview");
    spec.namespace == preview
}

/// Make a package available in the on-disk cache.
///
/// The package's directory is looked for below `data_dir`, then below
/// `cache_dir`. Only a package of the `preview` namespace that is in
/// neither is downloaded, with one request; for any other namespace
/// `download` need not even be callable.
pub fn prepare_package<E, D, U, C>(
    spec: &PackageSpec,
    data_dir: &Option<String>,
    cache_dir: &Option<String>,
    dir_exists: E,
    download: D,
    unpack: U,
    remove_dir_all: C,
) -> (result: Result<String, PackageError>) where
    E: Fn(String) -> bool,
    D: FnOnce(String) -> Result<Vec<u8>, FetchError>,
    U: FnOnce(Vec<u8>, String) -> Result<(), String>,
    C: FnOnce(String) -> (),

    requires
        may_prepare(*spec, *data_dir, *cache_dir, dir_exists, download, unpack, remove_dir_all),
    ensures
        exists|seen: Observed|
            {
                &&& #[trigger] observed(
                    *spec,
                    *data_dir,
                    *cache_dir,
                    dir_exists,
                    download,
                    unpack,
                    remove_dir_all,
                    seen,
                )
                &&& resolves(result, resolution(*spec, *data_dir, *cache_dir, seen))
            },
{
    let subdir = package_subdir(spec);
    let mut in_data = false;
    match data_dir {
        Some(data) => {
            let dir = join(data.as_str(), subdir.as_str());
            in_data = dir_exists(dir.clone());
            if in_data {
                let ghost seen = Observed {
                    in_data,
                    in_cache: false,
                    download: Ok(()),
                    in_cache_after: false,
                };
                assert(observed(
                    *spec,
                    *data_dir,
                    *cache_dir,
                    dir_exists,
                    download,
                    unpack,
                    remove_dir_all,
                    seen,
                ));
                return Ok(dir);
            }
        },
        None => {},
    }
    match cache_dir {
        Some(cache) => {
            let dir = join(cache.as_str(), subdir.as_str());
            let mut in_cache = false;
            let mut fetched: Result<(), PackageError> = Ok(());
            // Download from network if it doesn't exist yet.
            if in_preview(spec) {
                in_cache = dir_exists(dir.clone());
                if !in_cache {
                    fetched = download_package(
                        spec,
                        dir.as_str(),
                        download,
                        unpack,
                        remove_dir_all,
                    );
                    match fetched {
                        Ok(_) => {},
                        Err(error) => {
                            let ghost seen = Observed {
                                in_data,
                                in_cache,
                                download: Err(error),
                                in_cache_after: false,
                            };
                            assert(observed(
                                *spec,
                                *data_dir,
                                *cache_dir,
                                dir_exists,
                                download,
                                unpack,
                                remove_dir_all,
                                seen,
                            ));
                            return Err(error);
                        },
                    }
                }
            }
            let in_cache_after = dir_exists(dir.clone());
            let ghost seen = Observed { in_data, in_cache, download: fetched, in_cache_after };
            assert(observed(
                *spec,
                *data_dir,
                *cache_dir,
                dir_exists,
                download,
                unpack,
                remove_dir_all,
                seen,
            ));
            if in_cache_after {
                return Ok(dir);
            }
        },
        None => {
            let ghost seen = Observed {
                in_data,
                in_cache: false,
                download: Ok(()),
                in_cache_after: false,
            };
            assert(observed(
                *spec,
                *data_dir,
                *cache_dir,
                dir_exists,
                download,
                unpack,
                remove_dir_all,
                seen,
            ));
        },
    }
    Err(PackageError::NotFound(spec.clone()))
}

} // verus!
