use obstacle::{err_missing_configuration, err_missing_feature, obstinate_err, ObstacleError};

#[test]
fn new_keeps_the_message() {
    let e = ObstacleError::new("boom");
    assert_eq!(e.message, "boom");
    assert_eq!(e.to_string(), "boom");
}

#[test]
fn from_err_takes_the_description() {
    let io = std::io::Error::new(std::io::ErrorKind::Other, "disk full");
    let e = ObstacleError::from_err(io);
    assert_eq!(e.message, "disk full");
}

#[test]
fn obstinate_err_is_an_err() {
    let r: Result<u32, ObstacleError> = obstinate_err("nope");
    assert_eq!(r.unwrap_err().message, "nope");
}

#[test]
fn missing_feature_message() {
    let r: Result<(), ObstacleError> = err_missing_feature("aws", "s3");
    assert_eq!(
        r.unwrap_err().message,
        "feature 'aws' must be enabled in order to use 's3' cloud urls"
    );
}

#[test]
fn missing_configuration_message() {
    let e = err_missing_configuration("gcp", "gs");
    assert_eq!(
        e.message,
        "configuration 'gcp' must be provided in order to use 'gs' cloud urls"
    );
}
