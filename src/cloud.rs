//! Options for connecting to each provider, and the choice of store for an
//! identifier.
use crate::err::{err_missing_configuration, missing_configuration_text, ObstacleError};
use crate::location::{scheme_type, unknown_scheme_text, url_split, CloudLocation, CloudType};
use object_store::aws::AmazonS3ConfigKey;
use object_store::azure::AzureConfigKey;
use object_store::gcp::GoogleConfigKey;
use vstd::prelude::*;
use vstd::string::*;

verus! {

#[verifier::external_type_specification]
#[verifier::external_body]
pub struct ExAmazonS3ConfigKey(object_store::aws::AmazonS3ConfigKey);

#[verifier::external_type_specification]
#[verifier::external_body]
pub struct ExAzureConfigKey(object_store::azure::AzureConfigKey);

#[verifier::external_type_specification]
#[verifier::external_body]
pub struct ExGoogleConfigKey(object_store::gcp::GoogleConfigKey);

/// Whether a name is one of the AWS configuration keys.
pub uninterp spec fn aws_key_known(s: Seq<char>) -> bool;

/// Whether a name is one of the Azure configuration keys.
pub uninterp spec fn azure_key_known(s: Seq<char>) -> bool;

/// Whether a name is one of the GCP configuration keys.
pub uninterp spec fn gcp_key_known(s: Seq<char>) -> bool;

/// Relies on `FromStr for object_store::aws::AmazonS3ConfigKey`: a key for
/// each name of its table, an error for any other name.
#[verifier::external_body]
fn parse_aws_key(s: &str) -> (r: Option<AmazonS3ConfigKey>)
    ensures
        r is Some <==> aws_key_known(s@),
{
    s.parse::<AmazonS3ConfigKey>().ok()
}

/// Relies on `FromStr for object_store::azure::AzureConfigKey`: a key for
/// each name of its table, an error for any other name.
#[verifier::external_body]
fn parse_azure_key(s: &str) -> (r: Option<AzureConfigKey>)
    ensures
        r is Some <==> azure_key_known(s@),
{
    s.parse::<AzureConfigKey>().ok()
}

/// Relies on `FromStr for object_store::gcp::GoogleConfigKey`: a key for
/// each name of its table, an error for any other name.
#[verifier::external_body]
fn parse_gcp_key(s: &str) -> (r: Option<GoogleConfigKey>)
    ensures
        r is Some <==> gcp_key_known(s@),
{
    s.parse::<GoogleConfigKey>().ok()
}

/// The message of the error for a configuration key that the provider does
/// not know.
pub open spec fn unknown_key_text(key: Seq<char>) -> Seq<char> {
    "unknown configuration key: "@ + key
}

/// Whether entry `i` of a configuration has a typed key.
pub open spec fn typed_at<T>(keys: Seq<Option<T>>, i: int) -> bool {
    0 <= i < keys.len() && keys[i] is Some
}

/// Pairs each value of an untyped configuration with the typed form of its
/// key, `keys[i]` for entry `i`; `None` there stands for a name the provider
/// does not know, and the first such entry is reported as the error.
pub fn parsed_untyped_config<T>(config: &Vec<(String, String)>, keys: Vec<Option<T>>) -> (r:
    Result<Vec<(T, String)>, ObstacleError>)
    ensures
        r is Ok <==> forall|i: int| 0 <= i < config@.len() ==> typed_at(keys@, i),
        r matches Ok(v) ==> {
            &&& same_values(v@, config@)
            &&& forall|i: int| 0 <= i < v@.len() ==> keys@[i] == Some(#[trigger] v@[i].0)
        },
        r matches Err(e) ==> exists|i: int|
            {
                &&& 0 <= i < config@.len()
                &&& !typed_at(keys@, i)
                &&& forall|j: int| 0 <= j < i ==> typed_at(keys@, j)
                &&& e.message@ == unknown_key_text(config@[i].0@)
            },
{
    let n = config.len();
    let mut i: usize = 0;
    while i < n
        invariant
            n == config@.len(),
            i <= n,
            forall|j: int| 0 <= j < i ==> typed_at(keys@, j),
        decreases n - i,
    {
        if i >= keys.len() || keys[i].is_none() {
            let mut m = String::from_str("unknown configuration key: ");
            m.append(config[i].0.as_str());
            let r = Err(ObstacleError { message: m });
            assert(!typed_at(keys@, i as int));
            return r;
        }
        i = i + 1;
    }
    if n > 0 {
        assert(typed_at(keys@, n - 1));
    }
    let ghost orig = keys@;
    let mut keys = keys;
    keys.truncate(n);
    let ghost all = keys@;
    assert(all.subrange(0, n as int) =~= all);
    assert forall|j: int| 0 <= j < n implies typed_at(all, j) && all[j] == orig[j] by {
        assert(typed_at(orig, j));
    }
    let mut r: Vec<(T, String)> = Vec::new();
    let mut k: usize = 0;
    while k < n
        invariant
            n == config@.len(),
            all.len() == n,
            k <= n,
            keys@ == all.subrange(k as int, n as int),
            forall|j: int| 0 <= j < n ==> typed_at(all, j),
            r@.len() == k,
            forall|j: int| 0 <= j < k ==> all[j] == Some(#[trigger] r@[j].0),
            forall|j: int| 0 <= j < k ==> (#[trigger] r@[j]).1@ == config@[j].1@,
        decreases n - k,
    {
        assert(typed_at(all, k as int));
        let key = keys.remove(0);
        assert(keys@ =~= all.subrange(k + 1, n as int));
        assert(key == all[k as int]);
        match key {
            Some(t) => {
                r.push((t, config[k].1.clone()));
            },
            None => {},
        }
        k = k + 1;
    }
    Ok(r)
}


/// The typed aws key of each entry of a configuration, `None` for a name
/// that is not one.
fn aws_keys(config: &Vec<(String, String)>) -> (r: Vec<Option<AmazonS3ConfigKey>>)
    ensures
        r@.len() == config@.len(),
        forall|i: int| 0 <= i < r@.len() ==> (r@[i] is Some <==> aws_key_known(config@[i].0@)),
{
    let mut r: Vec<Option<AmazonS3ConfigKey>> = Vec::new();
    let mut i: usize = 0;
    while i < config.len()
        invariant
            i <= config@.len(),
            r@.len() == i,
            forall|j: int| 0 <= j < i ==> (r@[j] is Some <==> aws_key_known(config@[j].0@)),
        decreases config@.len() - i,
    {
        r.push(parse_aws_key(config[i].0.as_str()));
        i = i + 1;
    }
    r
}

/// The typed azure key of each entry of a configuration, `None` for a name
/// that is not one.
fn azure_keys(config: &Vec<(String, String)>) -> (r: Vec<Option<AzureConfigKey>>)
    ensures
        r@.len() == config@.len(),
        forall|i: int| 0 <= i < r@.len() ==> (r@[i] is Some <==> azure_key_known(config@[i].0@)),
{
    let mut r: Vec<Option<AzureConfigKey>> = Vec::new();
    let mut i: usize = 0;
    while i < config.len()
        invariant
            i <= config@.len(),
            r@.len() == i,
            forall|j: int| 0 <= j < i ==> (r@[j] is Some <==> azure_key_known(config@[j].0@)),
        decreases config@.len() - i,
    {
        r.push(parse_azure_key(config[i].0.as_str()));
        i = i + 1;
    }
    r
}

/// The typed gcp key of each entry of a configuration, `None` for a name
/// that is not one.
fn gcp_keys(config: &Vec<(String, String)>) -> (r: Vec<Option<GoogleConfigKey>>)
    ensures
        r@.len() == config@.len(),
        forall|i: int| 0 <= i < r@.len() ==> (r@[i] is Some <==> gcp_key_known(config@[i].0@)),
{
    let mut r: Vec<Option<GoogleConfigKey>> = Vec::new();
    let mut i: usize = 0;
    while i < config.len()
        invariant
            i <= config@.len(),
            r@.len() == i,
            forall|j: int| 0 <= j < i ==> (r@[j] is Some <==> gcp_key_known(config@[j].0@)),
        decreases config@.len() - i,
    {
        r.push(parse_gcp_key(config[i].0.as_str()));
        i = i + 1;
    }
    r
}

/// Whether every key of a configuration is known to a provider.
pub open spec fn all_known(config: Seq<(String, String)>, known: spec_fn(Seq<char>) -> bool) -> bool {
    forall|i: int| 0 <= i < config.len() ==> #[trigger] known(config[i].0@)
}

/// Whether `e` reports the first key of a configuration that a provider does
/// not know.
pub open spec fn reports_first_unknown(
    config: Seq<(String, String)>,
    known: spec_fn(Seq<char>) -> bool,
    e: ObstacleError,
) -> bool {
    exists|i: int|
        {
            &&& 0 <= i < config.len()
            &&& !known(config[i].0@)
            &&& forall|j: int| 0 <= j < i ==> #[trigger] known(config[j].0@)
            &&& e.message@ == unknown_key_text(config[i].0@)
        }
}

/// Whether a typed configuration holds, in order, the values of an untyped
/// one (the keys being their typed forms).
pub open spec fn same_values<K>(typed: Seq<(K, String)>, config: Seq<(String, String)>) -> bool {
    &&& typed.len() == config.len()
    &&& forall|i: int| 0 <= i < typed.len() ==> typed[i].1@ == config[i].1@
}

proof fn lemma_typed_iff_known<K>(
    config: Seq<(String, String)>,
    keys: Seq<Option<K>>,
    known: spec_fn(Seq<char>) -> bool,
)
    requires
        keys.len() == config.len(),
        forall|i: int| 0 <= i < keys.len() ==> (keys[i] is Some <==> known(config[i].0@)),
    ensures
        forall|i: int| 0 <= i < config.len() ==> (typed_at(keys, i) <==> #[trigger] known(config[i].0@)),
        (forall|i: int| 0 <= i < config.len() ==> typed_at(keys, i)) <==> all_known(config, known),
{
    if forall|i: int| 0 <= i < config.len() ==> typed_at(keys, i) {
        assert forall|i: int| 0 <= i < config.len() implies #[trigger] known(config[i].0@) by {
            assert(typed_at(keys, i));
        }
    }
    if all_known(config, known) {
        assert forall|i: int| 0 <= i < config.len() implies typed_at(keys, i) by {
            assert(known(config[i].0@));
        }
    }
}

/// Options to connect to the providers: a list of configuration entries for
/// each provider that has been configured.
#[derive(Clone, Debug)]
pub struct CloudOptions {
    pub aws: Option<Vec<(AmazonS3ConfigKey, String)>>,
    pub azure: Option<Vec<(AzureConfigKey, String)>>,
    pub gcp: Option<Vec<(GoogleConfigKey, String)>>,
}

impl Default for CloudOptions {
    fn default() -> (r: CloudOptions)
        ensures
            r.aws is None && r.azure is None && r.gcp is None,
    {
        CloudOptions { aws: None, azure: None, gcp: None }
    }
}

impl CloudOptions {
    /// Sets the configuration for AWS connections.
    pub fn with_aws(self, configs: Vec<(AmazonS3ConfigKey, String)>) -> (r: CloudOptions)
        ensures
            r.aws == Some(configs),
            r.azure == self.azure,
            r.gcp == self.gcp,
    {
        CloudOptions { aws: Some(configs), ..self }
    }

    /// Sets the configuration for Azure connections.
    pub fn with_azure(self, configs: Vec<(AzureConfigKey, String)>) -> (r: CloudOptions)
        ensures
            r.azure == Some(configs),
            r.aws == self.aws,
            r.gcp == self.gcp,
    {
        CloudOptions { azure: Some(configs), ..self }
    }

    /// Sets the configuration for GCP connections.
    pub fn with_gcp(self, configs: Vec<(GoogleConfigKey, String)>) -> (r: CloudOptions)
        ensures
            r.gcp == Some(configs),
            r.aws == self.aws,
            r.azure == self.azure,
    {
        CloudOptions { gcp: Some(configs), ..self }
    }

    /// Options for the provider that `url` names, from configuration entries
    /// whose keys are given by name. A `file` URL needs no options; a name
    /// that the provider does not know is an error.
    pub fn from_untyped_config(url: &str, config: &Vec<(String, String)>) -> (r: Result<
        CloudOptions,
        ObstacleError,
    >)
        ensures
            match url_split(url@) {
                None => r is Err,
                Some(p) => match scheme_type(p.0) {
                    None => r matches Err(e) && e.message@ == unknown_scheme_text(p.0),
                    Some(CloudType::File) => r matches Ok(o) && o.aws is None && o.azure is None
                        && o.gcp is None,
                    Some(CloudType::Aws) => {
                        &&& r is Ok <==> all_known(config@, |s| aws_key_known(s))
                        &&& r matches Ok(o) ==> o.aws matches Some(v) && same_values(v@, config@)
                            && o.azure is None && o.gcp is None
                        &&& r matches Err(e) ==> reports_first_unknown(
                            config@,
                            |s| aws_key_known(s),
                            e,
                        )
                    },
                    Some(CloudType::Azure) => {
                        &&& r is Ok <==> all_known(config@, |s| azure_key_known(s))
                        &&& r matches Ok(o) ==> o.azure matches Some(v) && same_values(v@, config@)
                            && o.aws is None && o.gcp is None
                        &&& r matches Err(e) ==> reports_first_unknown(
                            config@,
                            |s| azure_key_known(s),
                            e,
                        )
                    },
                    Some(CloudType::Gcp) => {
                        &&& r is Ok <==> all_known(config@, |s| gcp_key_known(s))
                        &&& r matches Ok(o) ==> o.gcp matches Some(v) && same_values(v@, config@)
                            && o.aws is None && o.azure is None
                        &&& r matches Err(e) ==> reports_first_unknown(
                            config@,
                            |s| gcp_key_known(s),
                            e,
                        )
                    },
                },
            },
    {
        match CloudType::from_str(url) {
            Err(e) => Err(e),
            Ok(CloudType::File) => Ok(CloudOptions::default()),
            Ok(CloudType::Aws) => {
                let keys = aws_keys(config);
                proof {
                    lemma_typed_iff_known(config@, keys@, |s| aws_key_known(s));
                }
                match parsed_untyped_config(config, keys) {
                    Ok(v) => Ok(CloudOptions::default().with_aws(v)),
                    Err(e) => Err(e),
                }
            },
            Ok(CloudType::Azure) => {
                let keys = azure_keys(config);
                proof {
                    lemma_typed_iff_known(config@, keys@, |s| azure_key_known(s));
                }
                match parsed_untyped_config(config, keys) {
                    Ok(v) => Ok(CloudOptions::default().with_azure(v)),
                    Err(e) => Err(e),
                }
            },
            Ok(CloudType::Gcp) => {
                let keys = gcp_keys(config);
                proof {
                    lemma_typed_iff_known(config@, keys@, |s| gcp_key_known(s));
                }
                match parsed_untyped_config(config, keys) {
                    Ok(v) => Ok(CloudOptions::default().with_gcp(v)),
                    Err(e) => Err(e),
                }
            },
        }
    }
}

/// The error, if any, that stops a store of provider `t` from being built
/// with `options` for a URL of scheme `scheme`: a remote provider needs
/// options, and options for that provider among them.
pub open spec fn store_error(t: CloudType, scheme: Seq<char>, options: Option<&CloudOptions>) -> Option<
    Seq<char>,
> {
    match t {
        CloudType::File => None,
        CloudType::Aws => match options {
            None => Some(missing_configuration_text("aws"@, scheme)),
            Some(o) => if o.aws is None {
                Some("`aws` configuration missing"@)
            } else {
                None
            },
        },
        CloudType::Azure => match options {
            None => Some(missing_configuration_text("azure"@, scheme)),
            Some(o) => if o.azure is None {
                Some(missing_configuration_text("azure"@, ""@))
            } else {
                None
            },
        },
        CloudType::Gcp => match options {
            None => Some(missing_configuration_text("gcp"@, scheme)),
            Some(o) => if o.gcp is None {
                Some(missing_configuration_text("gcp"@, ""@))
            } else {
                None
            },
        },
    }
}

/// Decides which store serves `url`: its location and provider, once the
/// URL parses, its scheme is known and the options hold what that provider
/// needs; otherwise the error that says why not.
pub fn store_plan(url: &str, options: Option<&CloudOptions>) -> (r: Result<
    (CloudLocation, CloudType),
    ObstacleError,
>)
    ensures
        match url_split(url@) {
            None => r is Err,
            Some(p) => match scheme_type(p.0) {
                None => r matches Err(e) && e.message@ == unknown_scheme_text(p.0),
                Some(t) => match store_error(t, p.0, options) {
                    None => r matches Ok((l, u)) && u == t && (l.scheme@, l.bucket@, l.prefix@)
                        == p,
                    Some(m) => r matches Err(e) && e.message@ == m,
                },
            },
        },
{
    let location = match CloudLocation::new(url) {
        Ok(l) => l,
        Err(e) => return Err(e),
    };
    let t = match CloudType::from_str(url) {
        Ok(t) => t,
        Err(e) => return Err(e),
    };
    let scheme = location.scheme.as_str();
    match t {
        CloudType::File => {},
        CloudType::Aws => match options {
            None => return Err(err_missing_configuration("aws", scheme)),
            Some(o) => if o.aws.is_none() {
                return Err(ObstacleError::new("`aws` configuration missing"));
            },
        },
        CloudType::Azure => match options {
            None => return Err(err_missing_configuration("azure", scheme)),
            Some(o) => if o.azure.is_none() {
                return Err(err_missing_configuration("azure", ""));
            },
        },
        CloudType::Gcp => match options {
            None => return Err(err_missing_configuration("gcp", scheme)),
            Some(o) => if o.gcp.is_none() {
                return Err(err_missing_configuration("gcp", ""));
            },
        },
    }
    Ok((location, t))
}

} // verus!
