use std::cell::{Cell, RefCell};

use typst_py::error::FileError;
use typst_py::package::{
    download_package, in_preview, map_fetch_error, package_subdir, package_url, prepare_package,
    with_detail, FetchError, PackageError, PackageSpec, PackageVersion,
};

fn spec(namespace: &str, name: &str, major: u32, minor: u32, patch: u32) -> PackageSpec {
    PackageSpec {
        namespace: namespace.to_string(),
        name: name.to_string(),
        version: PackageVersion { major, minor, patch },
    }
}

fn never_download(_: String) -> Result<Vec<u8>, FetchError> {
    unreachable!("no request is made")
}

fn never_unpack(_: Vec<u8>, _: String) -> Result<(), String> {
    unreachable!("nothing is unpacked")
}

fn never_remove(_: String) {
    unreachable!("nothing is removed")
}

const DATA: &str = "/data/typst/packages/preview/example/0.1.0";
const CACHE: &str = "/cache/typst/packages/preview/example/0.1.0";

#[test]
fn subdir_follows_the_layout() {
    assert_eq!(
        package_subdir(&spec("preview", "example", 0, 1, 0)),
        "typst/packages/preview/example/0.1.0"
    );
    assert_eq!(
        package_subdir(&spec("local", "my-pkg", 12, 0, 345)),
        "typst/packages/local/my-pkg/12.0.345"
    );
    assert_eq!(
        package_subdir(&spec("a", "b", u32::MAX, 10, 9)),
        "typst/packages/a/b/4294967295.10.9"
    );
}

#[test]
fn url_follows_the_convention() {
    assert_eq!(
        package_url(&spec("preview", "example", 0, 1, 0)),
        "https://packages.typst.org/preview/example-0.1.0.tar.gz"
    );
    assert_eq!(
        package_url(&spec("preview", "cetz", 0, 3, 21)),
        "https://packages.typst.org/preview/cetz-0.3.21.tar.gz"
    );
}

#[test]
fn preview_is_told_apart() {
    assert!(in_preview(&spec("preview", "x", 1, 0, 0)));
    assert!(!in_preview(&spec("local", "x", 1, 0, 0)));
    assert!(!in_preview(&spec("previews", "x", 1, 0, 0)));
    assert!(!in_preview(&spec("", "x", 1, 0, 0)));
}

#[test]
fn fetch_error_404_means_not_found() {
    let example = spec("preview", "example", 0, 1, 0);
    let mapped = map_fetch_error(
        &example,
        FetchError { status: Some(404), message: "status code 404".to_string() },
    );
    assert_eq!(mapped, PackageError::NotFound(example));
}

#[test]
fn other_fetch_errors_mean_network_failure() {
    let example = spec("preview", "example", 0, 1, 0);
    assert_eq!(
        map_fetch_error(
            &example,
            FetchError { status: Some(500), message: "status code 500".to_string() }
        ),
        PackageError::NetworkFailed(Some("status code 500".to_string()))
    );
    assert_eq!(
        map_fetch_error(&example, FetchError { status: None, message: "dns failed".to_string() }),
        PackageError::NetworkFailed(Some("dns failed".to_string()))
    );
}

#[test]
fn download_unpacks_what_it_fetched() {
    let example = spec("preview", "example", 0, 1, 0);
    let requests = Cell::new(0);
    let unpacked = RefCell::new(Vec::new());
    let result = download_package(
        &example,
        CACHE,
        |url| {
            requests.set(requests.get() + 1);
            assert_eq!(url, "https://packages.typst.org/preview/example-0.1.0.tar.gz");
            Ok(vec![0x1f, 0x8b, 0x08])
        },
        |archive, dir| {
            unpacked.borrow_mut().push((archive, dir));
            Ok(())
        },
        never_remove,
    );
    assert_eq!(result, Ok(()));
    assert_eq!(requests.get(), 1);
    assert_eq!(*unpacked.borrow(), vec![(vec![0x1f, 0x8b, 0x08], CACHE.to_string())]);
}

#[test]
fn download_maps_a_404() {
    let example = spec("preview", "example", 0, 1, 0);
    let result = download_package(
        &example,
        CACHE,
        |_| Err(FetchError { status: Some(404), message: "not found".to_string() }),
        never_unpack,
        never_remove,
    );
    assert_eq!(result, Err(PackageError::NotFound(example)));
}

#[test]
fn download_maps_a_transport_failure() {
    let example = spec("preview", "example", 0, 1, 0);
    let result = download_package(
        &example,
        CACHE,
        |_| Err(FetchError { status: None, message: "connection refused".to_string() }),
        never_unpack,
        never_remove,
    );
    assert_eq!(
        result,
        Err(PackageError::NetworkFailed(Some("connection refused".to_string())))
    );
}

#[test]
fn malformed_archive_leaves_no_directory() {
    let example = spec("preview", "example", 0, 1, 0);
    let on_disk = RefCell::new(Vec::<String>::new());
    let result = download_package(
        &example,
        CACHE,
        |_| Ok(b"not an archive".to_vec()),
        |_, dir| {
            on_disk.borrow_mut().push(dir);
            Err("unexpected end of file".to_string())
        },
        |dir| on_disk.borrow_mut().retain(|held| *held != dir),
    );
    assert_eq!(
        result,
        Err(PackageError::MalformedArchive(Some("unexpected end of file".to_string())))
    );
    assert!(on_disk.borrow().is_empty());
}

#[test]
fn package_in_data_dir_is_returned_at_once() {
    let example = spec("preview", "example", 0, 1, 0);
    let probes = RefCell::new(Vec::new());
    let result = prepare_package(
        &example,
        &Some("/data".to_string()),
        &Some("/cache".to_string()),
        |dir| {
            probes.borrow_mut().push(dir);
            true
        },
        never_download,
        never_unpack,
        never_remove,
    );
    assert_eq!(result, Ok(DATA.to_string()));
    assert_eq!(*probes.borrow(), vec![DATA.to_string()]);
}

#[test]
fn package_in_cache_dir_is_returned_without_a_request() {
    let example = spec("preview", "example", 0, 1, 0);
    let result = prepare_package(
        &example,
        &Some("/data".to_string()),
        &Some("/cache".to_string()),
        |dir| dir == CACHE,
        never_download,
        never_unpack,
        never_remove,
    );
    assert_eq!(result, Ok(CACHE.to_string()));
}

#[test]
fn missing_preview_package_is_fetched_once() {
    let example = spec("preview", "example", 0, 1, 0);
    let requests = Cell::new(0);
    let on_disk = RefCell::new(Vec::<String>::new());
    let result = prepare_package(
        &example,
        &Some("/data".to_string()),
        &Some("/cache".to_string()),
        |dir| on_disk.borrow().contains(&dir),
        |url| {
            requests.set(requests.get() + 1);
            assert_eq!(url, "https://packages.typst.org/preview/example-0.1.0.tar.gz");
            Ok(vec![1, 2, 3])
        },
        |archive, dir| {
            assert_eq!(archive, vec![1, 2, 3]);
            on_disk.borrow_mut().push(dir);
            Ok(())
        },
        never_remove,
    );
    assert_eq!(result, Ok(CACHE.to_string()));
    assert_eq!(requests.get(), 1);
}

#[test]
fn preview_package_with_404_is_not_found() {
    let example = spec("preview", "example", 0, 1, 0);
    let requests = Cell::new(0);
    let result = prepare_package(
        &example,
        &Some("/data".to_string()),
        &Some("/cache".to_string()),
        |_| false,
        |_| {
            requests.set(requests.get() + 1);
            Err(FetchError { status: Some(404), message: "status code 404".to_string() })
        },
        never_unpack,
        never_remove,
    );
    assert_eq!(result, Err(PackageError::NotFound(example)));
    assert_eq!(requests.get(), 1);
}

#[test]
fn preview_package_with_corrupt_archive_is_malformed() {
    let example = spec("preview", "example", 0, 1, 0);
    let on_disk = RefCell::new(Vec::<String>::new());
    let result = prepare_package(
        &example,
        &None,
        &Some("/cache".to_string()),
        |dir| on_disk.borrow().contains(&dir),
        |_| Ok(b"garbage".to_vec()),
        |_, dir| {
            on_disk.borrow_mut().push(dir);
            Err("invalid gzip header".to_string())
        },
        |dir| on_disk.borrow_mut().retain(|held| *held != dir),
    );
    assert_eq!(
        result,
        Err(PackageError::MalformedArchive(Some("invalid gzip header".to_string())))
    );
    assert!(on_disk.borrow().is_empty());
}

#[test]
fn preview_package_with_network_failure() {
    let example = spec("preview", "example", 0, 1, 0);
    let result = prepare_package(
        &example,
        &Some("/data".to_string()),
        &Some("/cache".to_string()),
        |_| false,
        |_| Err(FetchError { status: Some(503), message: "unavailable".to_string() }),
        never_unpack,
        never_remove,
    );
    assert_eq!(result, Err(PackageError::NetworkFailed(Some("unavailable".to_string()))));
}

#[test]
fn other_namespace_is_never_fetched() {
    let local = spec("local", "example", 0, 1, 0);
    let result = prepare_package(
        &local,
        &Some("/data".to_string()),
        &Some("/cache".to_string()),
        |_| false,
        never_download,
        never_unpack,
        never_remove,
    );
    assert_eq!(result, Err(PackageError::NotFound(local)));
}

#[test]
fn other_namespace_is_found_in_the_cache() {
    let local = spec("local", "example", 0, 1, 0);
    let result = prepare_package(
        &local,
        &None,
        &Some("/cache".to_string()),
        |dir| dir == "/cache/typst/packages/local/example/0.1.0",
        never_download,
        never_unpack,
        never_remove,
    );
    assert_eq!(result, Ok("/cache/typst/packages/local/example/0.1.0".to_string()));
}

#[test]
fn without_directories_nothing_is_found() {
    let example = spec("preview", "example", 0, 1, 0);
    let result = prepare_package(
        &example,
        &None,
        &None,
        |_| unreachable!("nothing is probed"),
        never_download,
        never_unpack,
        never_remove,
    );
    assert_eq!(result, Err(PackageError::NotFound(example)));
}

#[test]
fn download_that_leaves_nothing_is_not_found() {
    let example = spec("preview", "example", 0, 1, 0);
    let result = prepare_package(
        &example,
        &None,
        &Some("/cache".to_string()),
        |_| false,
        |_| Ok(vec![]),
        |_, _| Ok(()),
        never_remove,
    );
    assert_eq!(result, Err(PackageError::NotFound(example)));
}

#[test]
fn package_error_messages() {
    assert_eq!(
        PackageError::NotFound(spec("preview", "example", 0, 1, 0)).message(),
        "package not found (searched for @preview/example:0.1.0)"
    );
    assert_eq!(
        PackageError::NetworkFailed(Some("timed out".to_string())).message(),
        "failed to download package (timed out)"
    );
    assert_eq!(PackageError::NetworkFailed(None).message(), "failed to download package");
    assert_eq!(
        PackageError::MalformedArchive(Some("bad header".to_string())).message(),
        "failed to decompress package (bad header)"
    );
    assert_eq!(
        PackageError::MalformedArchive(None).message(),
        "failed to decompress package (archive malformed)"
    );
    assert_eq!(
        PackageError::Other(Some("why".to_string())).message(),
        "failed to load package (why)"
    );
    assert_eq!(PackageError::Other(None).message(), "failed to load package");
}

#[test]
fn file_error_messages() {
    assert_eq!(
        FileError::NotFound("/project/a.typ".to_string()).message(),
        "file not found (searched at /project/a.typ)"
    );
    assert_eq!(FileError::AccessDenied.message(), "failed to load file (access denied)");
    assert_eq!(FileError::IsDirectory.message(), "failed to load file (is a directory)");
    assert_eq!(FileError::InvalidUtf8.message(), "file is not valid utf-8");
    assert_eq!(
        FileError::Package(PackageError::NetworkFailed(None)).message(),
        "failed to download package"
    );
    assert_eq!(
        FileError::Other(Some("disk on fire".to_string())).message(),
        "failed to load file (disk on fire)"
    );
    assert_eq!(FileError::Other(None).message(), "failed to load file");
}

#[test]
fn with_detail_brackets_the_detail() {
    assert_eq!(with_detail("lead", "detail"), "lead (detail)");
    assert_eq!(with_detail("", ""), " ()");
}

#[test]
fn errors_clone_to_equal_values() {
    let error = FileError::Package(PackageError::NotFound(spec("preview", "example", 1, 2, 3)));
    assert_eq!(error.clone(), error);
    let other = PackageError::Other(Some("x".to_string()));
    assert_eq!(other.clone(), other);
}
