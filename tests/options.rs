use obstacle::{parsed_untyped_config, store_plan, CloudOptions, CloudType};

fn pairs(entries: &[(&str, &str)]) -> Vec<(String, String)> {
    entries.iter().map(|(k, v)| (k.to_string(), v.to_string())).collect()
}

#[test]
fn untyped_config_pairs_keys_and_values() {
    let config = pairs(&[("a", "1"), ("b", "2")]);
    let r = parsed_untyped_config(&config, vec![Some(10u8), Some(20u8)]).unwrap();
    assert_eq!(r, vec![(10u8, "1".to_string()), (20u8, "2".to_string())]);
}

#[test]
fn untyped_config_reports_first_unknown_key() {
    let config = pairs(&[("a", "1"), ("bad", "2"), ("worse", "3")]);
    let r = parsed_untyped_config(&config, vec![Some(1u8), None, None]);
    assert_eq!(r.unwrap_err().message, "unknown configuration key: bad");
    let r = parsed_untyped_config(&config, vec![Some(1u8), Some(2u8)]);
    assert_eq!(r.unwrap_err().message, "unknown configuration key: worse");
}

#[test]
fn untyped_config_empty() {
    let r = parsed_untyped_config::<u8>(&Vec::new(), Vec::new()).unwrap();
    assert!(r.is_empty());
}

#[test]
fn aws_options_from_names() {
    let config = pairs(&[("aws_access_key_id", "id"), ("region", "us-east-1")]);
    let o = CloudOptions::from_untyped_config("s3://bucket/key", &config).unwrap();
    let aws = o.aws.unwrap();
    assert_eq!(aws.len(), 2);
    assert_eq!(aws[0].0, object_store::aws::AmazonS3ConfigKey::AccessKeyId);
    assert_eq!(aws[1].0, object_store::aws::AmazonS3ConfigKey::Region);
    assert_eq!(aws[1].1, "us-east-1");
    assert!(o.azure.is_none() && o.gcp.is_none());
}

#[test]
fn gcp_and_azure_options_from_names() {
    let o = CloudOptions::from_untyped_config("gs://b/k", &pairs(&[("service_account", "p")]))
        .unwrap();
    assert_eq!(o.gcp.unwrap().len(), 1);
    let o = CloudOptions::from_untyped_config("az://c/k", &pairs(&[("account_name", "n")]))
        .unwrap();
    assert_eq!(o.azure.unwrap().len(), 1);
}

#[test]
fn unknown_option_name_is_an_error() {
    let config = pairs(&[("region", "x"), ("colour", "blue")]);
    let e = CloudOptions::from_untyped_config("s3://bucket/key", &config).unwrap_err();
    assert_eq!(e.message, "unknown configuration key: colour");
}

#[test]
fn file_url_needs_no_options() {
    let o = CloudOptions::from_untyped_config("file:///tmp/a", &pairs(&[("x", "y")])).unwrap();
    assert!(o.aws.is_none() && o.azure.is_none() && o.gcp.is_none());
}

#[test]
fn builders_set_one_provider() {
    let o = CloudOptions::default().with_aws(vec![(
        object_store::aws::AmazonS3ConfigKey::Region,
        "r".to_string(),
    )]);
    assert_eq!(o.aws.as_ref().unwrap().len(), 1);
    assert!(o.azure.is_none() && o.gcp.is_none());
    let o = o.with_gcp(Vec::new()).with_azure(Vec::new());
    assert!(o.aws.is_some() && o.azure.is_some() && o.gcp.is_some());
}

#[test]
fn store_plan_needs_options_for_remote() {
    let e = store_plan("s3://bucket/key", None).unwrap_err();
    assert_eq!(e.message, "configuration 'aws' must be provided in order to use 's3' cloud urls");
    let d = CloudOptions::default();
    let e = store_plan("s3://bucket/key", Some(&d)).unwrap_err();
    assert_eq!(e.message, "`aws` configuration missing");
    let e = store_plan("gs://bucket/key", Some(&d)).unwrap_err();
    assert_eq!(e.message, "configuration 'gcp' must be provided in order to use '' cloud urls");
    let e = store_plan("az://c/key", None).unwrap_err();
    assert_eq!(e.message, "configuration 'azure' must be provided in order to use 'az' cloud urls");
}

#[test]
fn store_plan_for_configured_provider() {
    let o = CloudOptions::default().with_aws(Vec::new());
    let (l, t) = store_plan("s3://bucket-a/data.csv", Some(&o)).unwrap();
    assert_eq!(t, CloudType::Aws);
    assert_eq!(l.bucket, "bucket-a");
    let (_, t) = store_plan("file:///tmp/a", None).unwrap();
    assert_eq!(t, CloudType::File);
    let e = store_plan("ftp://h/a", None).unwrap_err();
    assert_eq!(e.message, "unknown url scheme ftp");
}
