use obstacle::{
    cache_dir_components, resolve_source, scheme_lookup, trim_leading_slashes, CloudLocation,
    CloudType, Source,
};

fn kind(url: &str) -> Option<CloudType> {
    CloudType::from_str(url).ok()
}

#[test]
fn schemes_map_to_providers() {
    assert_eq!(kind("s3://bucket/key"), Some(CloudType::Aws));
    assert_eq!(kind("az://container/key"), Some(CloudType::Azure));
    assert_eq!(kind("adl://container/key"), Some(CloudType::Azure));
    assert_eq!(kind("abfs://container/key"), Some(CloudType::Azure));
    assert_eq!(kind("gs://bucket/key"), Some(CloudType::Gcp));
    assert_eq!(kind("gcp://bucket/key"), Some(CloudType::Gcp));
    assert_eq!(kind("file:///tmp/data.csv"), Some(CloudType::File));
}

#[test]
fn unknown_scheme_is_an_error() {
    let e = CloudType::from_str("http://example.com/a").unwrap_err();
    assert_eq!(e.message, "unknown url scheme http");
}

#[test]
fn plain_path_is_not_a_url() {
    assert!(CloudType::from_str("/tmp/data.csv").is_err());
    assert!(CloudLocation::new("data.csv").is_err());
}

#[test]
fn scheme_table_lookup() {
    assert_eq!(scheme_lookup(&"s3".to_string()), Some(CloudType::Aws));
    assert_eq!(scheme_lookup(&"abfs".to_string()), Some(CloudType::Azure));
    assert_eq!(scheme_lookup(&"gcp".to_string()), Some(CloudType::Gcp));
    assert_eq!(scheme_lookup(&"file".to_string()), Some(CloudType::File));
    assert_eq!(scheme_lookup(&"S3".to_string()), None);
    assert_eq!(scheme_lookup(&"".to_string()), None);
}

#[test]
fn location_splits_scheme_bucket_key() {
    let l = CloudLocation::new("s3://bucket-a/data.csv").unwrap();
    assert_eq!(l.scheme, "s3");
    assert_eq!(l.bucket, "bucket-a");
    assert_eq!(l.prefix, "/data.csv");
}

#[test]
fn cache_directory_of_a_location() {
    let l = CloudLocation::new("s3://bucket-a/data.csv").unwrap();
    assert_eq!(cache_dir_components(&l), vec!["s3", "bucket-a", "data.csv"]);
    let l = CloudLocation::new("gs://b/dir/sub/file.bin").unwrap();
    assert_eq!(cache_dir_components(&l), vec!["gs", "b", "dir/sub/file.bin"]);
}

#[test]
fn cache_directory_is_deterministic() {
    let a = CloudLocation::new("az://c/x/y").unwrap();
    let b = CloudLocation::new("az://c/x/y").unwrap();
    assert_eq!(cache_dir_components(&a), cache_dir_components(&b));
}

#[test]
fn leading_slashes_are_trimmed() {
    assert_eq!(trim_leading_slashes("//a/b"), "a/b");
    assert_eq!(trim_leading_slashes("a/b/"), "a/b/");
    assert_eq!(trim_leading_slashes("///"), "");
    assert_eq!(trim_leading_slashes(""), "");
}

#[test]
fn plain_path_bypasses_the_remote_store() {
    match resolve_source("/tmp/data.bin") {
        Source::Local(p) => assert_eq!(p, "/tmp/data.bin"),
        Source::Remote(_) => panic!("a plain path must be read locally"),
    }
    match resolve_source("relative/data.bin") {
        Source::Local(p) => assert_eq!(p, "relative/data.bin"),
        Source::Remote(_) => panic!("a plain path must be read locally"),
    }
    match resolve_source("http://example.com/a") {
        Source::Local(p) => assert_eq!(p, "http://example.com/a"),
        Source::Remote(_) => panic!("an unknown scheme is read locally"),
    }
}

#[test]
fn file_url_is_read_at_its_path() {
    match resolve_source("file:///tmp/x.bin") {
        Source::Local(p) => assert_eq!(p, "/tmp/x.bin"),
        Source::Remote(_) => panic!("a file url must be read locally"),
    }
}

#[test]
fn remote_url_goes_to_the_store() {
    assert!(matches!(resolve_source("s3://b/k"), Source::Remote(CloudType::Aws)));
    assert!(matches!(resolve_source("gs://b/k"), Source::Remote(CloudType::Gcp)));
    assert!(matches!(resolve_source("az://b/k"), Source::Remote(CloudType::Azure)));
}
