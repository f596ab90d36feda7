use boom::config::{
    ConfigError, ConfigField, FieldError, FieldProblem, S3ConfigFields, S3ConfigRaw, SelectedConfig,
};

fn good() -> S3ConfigFields {
    S3ConfigFields {
        private_key: "secret".to_string(),
        public_key: "access".to_string(),
        nickname: "home".to_string(),
        endpoint: "https://s3.example.com".to_string(),
        region: "eu-west-1".to_string(),
        bucket_name: "media".to_string(),
        host_rewrite: None,
    }
}

#[test]
fn valid_fields_pass() {
    assert_eq!(good().validate(), Ok(()));
    let mut f = good();
    f.host_rewrite = Some("https://cdn.example.com".to_string());
    assert_eq!(f.validate(), Ok(()));
}

#[test]
fn every_failed_rule_is_listed_in_field_order() {
    let f = S3ConfigFields {
        private_key: String::new(),
        public_key: "k".to_string(),
        nickname: String::new(),
        endpoint: "not a url".to_string(),
        region: String::new(),
        bucket_name: String::new(),
        host_rewrite: Some("also not".to_string()),
    };
    let e = f.validate().unwrap_err();
    let expected = vec![
        FieldError { field: ConfigField::PrivateKey, problem: FieldProblem::Required },
        FieldError { field: ConfigField::Nickname, problem: FieldProblem::Required },
        FieldError { field: ConfigField::Endpoint, problem: FieldProblem::InvalidUrl },
        FieldError { field: ConfigField::Region, problem: FieldProblem::Required },
        FieldError { field: ConfigField::BucketName, problem: FieldProblem::Required },
        FieldError { field: ConfigField::HostRewrite, problem: FieldProblem::InvalidUrl },
    ];
    assert_eq!(e, expected);
    assert_eq!(e[0].message(), "Required Field");
    assert_eq!(e[2].message(), "Must be a valid url");
    assert_eq!(e[5].message(), "Must be a valid url or empty");
}

#[test]
fn empty_endpoint_is_required() {
    let mut f = good();
    f.endpoint = String::new();
    f.public_key = String::new();
    assert_eq!(
        f.validate(),
        Err(vec![
            FieldError { field: ConfigField::PublicKey, problem: FieldProblem::Required },
            FieldError { field: ConfigField::Endpoint, problem: FieldProblem::Required },
        ])
    );
}

#[test]
fn build_outcomes() {
    let c = S3ConfigRaw::new(3, good()).build().unwrap();
    assert_eq!(c.bucket().name(), "media");
    assert_eq!(c.bucket().region(), "eu-west-1");
    assert_eq!(c.credentials().key(), "access");
    assert_eq!(c.credentials().secret(), "secret");
    assert_eq!(c.host_rewrite(), &None);
    assert_eq!(c.base_url(), "https://media.s3.example.com/");

    let mut f = good();
    f.bucket_name = String::new();
    assert_eq!(
        S3ConfigRaw::new(3, f).build().unwrap_err(),
        ConfigError::Invalid(vec![FieldError {
            field: ConfigField::BucketName,
            problem: FieldProblem::Required
        }])
    );

    let mut f = good();
    f.endpoint = "ftp://files.example.com".to_string();
    assert_eq!(S3ConfigRaw::new(3, f).build().unwrap_err(), ConfigError::InvalidBucket);
}

#[test]
fn record_parts() {
    let raw = S3ConfigRaw::new(42, good());
    assert_eq!(raw.id(), 42);
    let (id, fields) = raw.into_parts();
    assert_eq!(id.id, 42);
    assert_eq!(fields.bucket_name, "media");
    let sel = SelectedConfig::new(0, 42);
    assert_eq!(sel.config_id().id, 42);
}
