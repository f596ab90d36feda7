//! Bucket configurations: the stored record, its field-keyed validation, and
//! the ready-to-sign configuration built from it.
use vstd::prelude::*;
use crate::store::{
    AddressingStyle, bucket_base_of, bucket_parts, credential_parts, new_bucket, new_credentials,
    parse_url, url_parses, validate_url,
};

verus! {

/// The row identifier of a stored record.
#[derive(Debug, Clone, Copy, PartialEq, Eq)]
pub struct I64Id {
    pub id: i64,
}

/// A configuration record as the user enters it.
#[derive(Debug, Clone, Default)]
pub struct S3ConfigFields {
    pub private_key: String,
    pub public_key: String,
    pub nickname: String,
    pub endpoint: String,
    pub region: String,
    pub bucket_name: String,
    pub host_rewrite: Option<String>,
}

/// A stored configuration record with its row identifier.
#[derive(Debug, Clone)]
pub struct S3ConfigRaw {
    id: i64,
    pub fields: S3ConfigFields,
}

/// The row that names the configuration in use.
#[derive(Debug, Clone, Copy, PartialEq, Eq)]
pub struct SelectedConfig {
    id: i64,
    config_id: i64,
}

#[derive(Debug, Clone, Copy, PartialEq, Eq)]
pub enum ConfigField {
    PrivateKey,
    PublicKey,
    Nickname,
    Endpoint,
    Region,
    BucketName,
    HostRewrite,
}

#[derive(Debug, Clone, Copy, PartialEq, Eq)]
pub enum FieldProblem {
    /// The field is empty.
    Required,
    /// The field does not hold a URL.
    InvalidUrl,
}

/// One failed field rule.
#[derive(Debug, Clone, Copy, PartialEq, Eq)]
pub struct FieldError {
    pub field: ConfigField,
    pub problem: FieldProblem,
}

/// Why a configuration record cannot be used.
#[derive(Debug, Clone, PartialEq, Eq)]
pub enum ConfigError {
    /// Field rules that failed, in field order.
    Invalid(Vec<FieldError>),
    /// The endpoint does not parse as a URL.
    InvalidEndpoint,
    /// The object-store client refused the endpoint and bucket name.
    InvalidBucket,
}

pub open spec fn required_rule(field: ConfigField, s: Seq<char>) -> Seq<FieldError> {
    if s.len() == 0 {
        seq![FieldError { field, problem: FieldProblem::Required }]
    } else {
        Seq::empty()
    }
}

pub open spec fn url_rule(field: ConfigField, s: Seq<char>) -> Seq<FieldError> {
    if s.len() == 0 {
        seq![FieldError { field, problem: FieldProblem::Required }]
    } else if !url_parses(s) {
        seq![FieldError { field, problem: FieldProblem::InvalidUrl }]
    } else {
        Seq::empty()
    }
}

pub open spec fn optional_url_rule(field: ConfigField, s: Option<String>) -> Seq<FieldError> {
    match s {
        Some(u) => if url_parses(u@) {
            Seq::empty()
        } else {
            seq![FieldError { field, problem: FieldProblem::InvalidUrl }]
        },
        None => Seq::empty(),
    }
}

impl FieldError {
    pub fn message(&self) -> (r: &'static str) {
        match self.problem {
            FieldProblem::Required => "Required Field",
            FieldProblem::InvalidUrl => match self.field {
                ConfigField::HostRewrite => "Must be a valid url or empty",
                _ => "Must be a valid url",
            },
        }
    }
}

fn check_required(errors: &mut Vec<FieldError>, field: ConfigField, s: &String)
    ensures
        final(errors)@ == old(errors)@ + required_rule(field, s@),
{
    if s.as_str().is_empty() {
        errors.push(FieldError { field, problem: FieldProblem::Required });
    }
    proof {
        assert(final(errors)@ =~= old(errors)@ + required_rule(field, s@));
    }
}

fn check_url(errors: &mut Vec<FieldError>, field: ConfigField, s: &String)
    ensures
        final(errors)@ == old(errors)@ + url_rule(field, s@),
{
    if s.as_str().is_empty() {
        errors.push(FieldError { field, problem: FieldProblem::Required });
    } else if !validate_url(s.as_str()) {
        errors.push(FieldError { field, problem: FieldProblem::InvalidUrl });
    }
    proof {
        assert(final(errors)@ =~= old(errors)@ + url_rule(field, s@));
    }
}

impl S3ConfigFields {
    /// Every failed field rule, in field order: the keys, nickname, region
    /// and bucket name are required, the endpoint must be a URL, and the
    /// host rewrite, where given, must be one too.
    pub open spec fn problems(&self) -> Seq<FieldError> {
        required_rule(ConfigField::PrivateKey, self.private_key@)
            + required_rule(ConfigField::PublicKey, self.public_key@)
            + required_rule(ConfigField::Nickname, self.nickname@)
            + url_rule(ConfigField::Endpoint, self.endpoint@)
            + required_rule(ConfigField::Region, self.region@)
            + required_rule(ConfigField::BucketName, self.bucket_name@)
            + optional_url_rule(ConfigField::HostRewrite, self.host_rewrite)
    }

    pub fn validate(&self) -> (r: Result<(), Vec<FieldError>>)
        ensures
            r is Ok <==> self.problems().len() == 0,
            r matches Err(v) ==> v@ == self.problems(),
    {
        let mut errors: Vec<FieldError> = Vec::new();
        check_required(&mut errors, ConfigField::PrivateKey, &self.private_key);
        check_required(&mut errors, ConfigField::PublicKey, &self.public_key);
        check_required(&mut errors, ConfigField::Nickname, &self.nickname);
        check_url(&mut errors, ConfigField::Endpoint, &self.endpoint);
        check_required(&mut errors, ConfigField::Region, &self.region);
        check_required(&mut errors, ConfigField::BucketName, &self.bucket_name);
        match &self.host_rewrite {
            Some(h) => {
                if !validate_url(h.as_str()) {
                    errors.push(
                        FieldError { field: ConfigField::HostRewrite, problem: FieldProblem::InvalidUrl },
                    );
                }
            },
            None => {},
        }
        proof {
            assert(errors@ =~= self.problems());
        }
        if errors.len() == 0 {
            Ok(())
        } else {
            Err(errors)
        }
    }
}

/// A bucket, the credentials that sign for it, and the optional base that
/// replaces the store's address in public object URLs. Beside the client's
/// bucket and credentials it keeps, as text, the bucket's base URL, name and
/// region and the access key and secret, read from them or given to them.
#[derive(Debug)]
pub struct S3Config {
    pub(crate) bucket: rusty_s3::Bucket,
    pub(crate) credentials: rusty_s3::Credentials,
    base_url: String,
    bucket_name: String,
    region: String,
    access_key: String,
    secret_key: String,
    host_rewrite: Option<String>,
}

impl S3Config {
    pub closed spec fn spec_base_url(&self) -> Seq<char> {
        self.base_url@
    }

    pub closed spec fn spec_bucket_name(&self) -> Seq<char> {
        self.bucket_name@
    }

    pub closed spec fn spec_region(&self) -> Seq<char> {
        self.region@
    }

    pub closed spec fn spec_access_key(&self) -> Seq<char> {
        self.access_key@
    }

    pub closed spec fn spec_secret_key(&self) -> Seq<char> {
        self.secret_key@
    }

    pub closed spec fn spec_host_rewrite(&self) -> Option<String> {
        self.host_rewrite
    }

    pub fn new(
        bucket: rusty_s3::Bucket,
        credentials: rusty_s3::Credentials,
        host_rewrite: Option<String>,
    ) -> (r: Self)
        ensures
            r.spec_host_rewrite() == host_rewrite,
    {
        let (base_url, bucket_name, region) = bucket_parts(&bucket);
        let (access_key, secret_key) = credential_parts(&credentials);
        S3Config {
            bucket,
            credentials,
            base_url,
            bucket_name,
            region,
            access_key,
            secret_key,
            host_rewrite,
        }
    }

    pub fn bucket(&self) -> &rusty_s3::Bucket {
        &self.bucket
    }

    pub fn credentials(&self) -> &rusty_s3::Credentials {
        &self.credentials
    }

    pub fn base_url(&self) -> (r: &str)
        ensures
            r@ == self.spec_base_url(),
    {
        self.base_url.as_str()
    }

    pub fn host_rewrite(&self) -> (r: &Option<String>)
        ensures
            *r == self.spec_host_rewrite(),
    {
        &self.host_rewrite
    }
}

impl S3ConfigRaw {
    pub fn new(id: i64, fields: S3ConfigFields) -> (r: Self)
        ensures
            r.spec_id() == id,
            r.spec_fields() == fields,
    {
        S3ConfigRaw { id, fields }
    }

    pub closed spec fn spec_id(&self) -> i64 {
        self.id
    }

    pub closed spec fn spec_fields(&self) -> S3ConfigFields {
        self.fields
    }

    pub fn id(&self) -> (r: i64)
        ensures
            r == self.spec_id(),
    {
        self.id
    }

    /// Validates the record and builds the configuration that signs
    /// requests: virtual-host addressing, the public key as access key and
    /// the private key as secret.
    pub fn build(self) -> (r: Result<S3Config, ConfigError>)
        ensures
            ({
                let f = self.spec_fields();
                &&& f.problems().len() != 0 ==> (r matches Err(ConfigError::Invalid(v)) && v@
                    == f.problems())
                &&& f.problems().len() == 0 && !url_parses(f.endpoint@) ==> r == Err::<
                    S3Config,
                    ConfigError,
                >(ConfigError::InvalidEndpoint)
                &&& f.problems().len() == 0 && url_parses(f.endpoint@) && bucket_base_of(
                    f.endpoint@,
                    AddressingStyle::VirtualHost,
                    f.bucket_name@,
                ) is None ==> r == Err::<S3Config, ConfigError>(ConfigError::InvalidBucket)
                &&& f.problems().len() == 0 && url_parses(f.endpoint@) && bucket_base_of(
                    f.endpoint@,
                    AddressingStyle::VirtualHost,
                    f.bucket_name@,
                ) is Some ==> r is Ok
                &&& r matches Ok(c) ==> {
                    &&& Some(c.spec_base_url()) == bucket_base_of(
                        f.endpoint@,
                        AddressingStyle::VirtualHost,
                        f.bucket_name@,
                    )
                    &&& c.spec_bucket_name() == f.bucket_name@
                    &&& c.spec_region() == f.region@
                    &&& c.spec_access_key() == f.public_key@
                    &&& c.spec_secret_key() == f.private_key@
                    &&& c.spec_host_rewrite() == f.host_rewrite
                }
            }),
    {
        match self.fields.validate() {
            Err(v) => {
                return Err(ConfigError::Invalid(v));
            },
            Ok(()) => {},
        }
        match parse_url(self.fields.endpoint.as_str()) {
            Ok(_) => {},
            Err(_) => {
                return Err(ConfigError::InvalidEndpoint);
            },
        }
        let bucket_name = self.fields.bucket_name.clone();
        let region = self.fields.region.clone();
        let (bucket, base_url) = match new_bucket(
            self.fields.endpoint.as_str(),
            AddressingStyle::VirtualHost,
            self.fields.bucket_name,
            self.fields.region,
        ) {
            Ok(b) => b,
            Err(_) => {
                return Err(ConfigError::InvalidBucket);
            },
        };
        let access_key = self.fields.public_key.clone();
        let secret_key = self.fields.private_key.clone();
        let credentials = new_credentials(self.fields.public_key, self.fields.private_key);
        Ok(
            S3Config {
                bucket,
                credentials,
                base_url,
                bucket_name,
                region,
                access_key,
                secret_key,
                host_rewrite: self.fields.host_rewrite,
            },
        )
    }

    pub fn into_parts(self) -> (r: (I64Id, S3ConfigFields))
        ensures
            r.0.id == self.spec_id(),
            r.1 == self.spec_fields(),
    {
        (I64Id { id: self.id }, self.fields)
    }
}

impl SelectedConfig {
    pub fn new(id: i64, config_id: i64) -> (r: Self)
        ensures
            r.spec_config_id() == config_id,
            r.spec_id() == id,
    {
        SelectedConfig { id, config_id }
    }

    pub closed spec fn spec_id(&self) -> i64 {
        self.id
    }

    pub closed spec fn spec_config_id(&self) -> i64 {
        self.config_id
    }

    pub fn config_id(&self) -> (r: I64Id)
        ensures
            r.id == self.spec_config_id(),
    {
        I64Id { id: self.config_id }
    }
}

} // verus!
