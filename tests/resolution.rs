use anycloud::model::{
    AWSCredentials, AzureCredentials, Config, Credentials, CredentialsProfile, DeployProfile,
    GCPCredentials,
};
use anycloud::resolve::{get_config, resolve, resolve_profile, ResolveError};

fn aws_profile(key: &str) -> CredentialsProfile {
    CredentialsProfile {
        credentials: Credentials::AWS(AWSCredentials {
            access_key_id: key.to_string(),
            secret_access_key: format!("{}-secret", key),
        }),
        cloud_provider: "AWS".to_string(),
    }
}

fn gcp_profile() -> CredentialsProfile {
    CredentialsProfile {
        credentials: Credentials::GCP(GCPCredentials {
            private_key: "pk".to_string(),
            client_email: "ci@example.com".to_string(),
            project_id: "proj".to_string(),
        }),
        cloud_provider: "GCP".to_string(),
    }
}

fn row(cred: Option<&str>, region: &str, vm: &str) -> DeployProfile {
    DeployProfile {
        credential_profile: cred.map(|c| c.to_string()),
        region: region.to_string(),
        vm_type: vm.to_string(),
    }
}

fn key_of(c: &Config) -> String {
    match &c.credentials {
        Credentials::AWS(a) => a.access_key_id.clone(),
        Credentials::GCP(g) => g.project_id.clone(),
        Credentials::Azure(z) => z.application_id.clone(),
    }
}

#[test]
fn named_rows_resolve_in_order() {
    let store = vec![
        ("mine".to_string(), aws_profile("AK1")),
        ("work".to_string(), gcp_profile()),
    ];
    let rows = vec![
        row(Some("work"), "us-central1", "e2-medium"),
        row(Some("mine"), "us-west-2", "t2.micro"),
        row(Some("work"), "europe-west1", "e2-small"),
    ];
    let out = resolve_profile(&store, &"staging".to_string(), &rows).unwrap();
    assert_eq!(out.len(), 3);
    assert_eq!(out[0].region, "us-central1");
    assert_eq!(out[0].cloud_provider, "GCP");
    assert_eq!(key_of(&out[0]), "proj");
    assert_eq!(out[1].region, "us-west-2");
    assert_eq!(out[1].vm_type, "t2.micro");
    assert_eq!(out[1].cloud_provider, "AWS");
    assert_eq!(key_of(&out[1]), "AK1");
    assert_eq!(out[2].region, "europe-west1");
    assert_eq!(out[2].vm_type, "e2-small");
}

#[test]
fn default_row_uses_the_only_profile() {
    let store = vec![("only".to_string(), aws_profile("AK9"))];
    let rows = vec![row(None, "us-east-1", "t3.small")];
    let out = resolve_profile(&store, &"prod".to_string(), &rows).unwrap();
    assert_eq!(out.len(), 1);
    assert_eq!(key_of(&out[0]), "AK9");
    assert_eq!(out[0].region, "us-east-1");
}

#[test]
fn default_row_with_two_profiles_is_ambiguous() {
    let store = vec![
        ("a".to_string(), aws_profile("A")),
        ("b".to_string(), aws_profile("B")),
    ];
    let rows = vec![row(None, "us-east-1", "t3.small")];
    match resolve_profile(&store, &"prod".to_string(), &rows) {
        Err(ResolveError::AmbiguousDefaultCredential { deploy_config }) => {
            assert_eq!(deploy_config, "prod")
        }
        other => panic!("unexpected {:?}", other),
    }
}

#[test]
fn default_row_with_empty_store_is_ambiguous() {
    let store: Vec<(String, CredentialsProfile)> = vec![];
    let rows = vec![row(None, "us-east-1", "t3.small")];
    assert!(matches!(
        resolve_profile(&store, &"prod".to_string(), &rows),
        Err(ResolveError::AmbiguousDefaultCredential { .. })
    ));
}

#[test]
fn unknown_alias_fails_without_partial_result() {
    let store = vec![("mine".to_string(), aws_profile("AK1"))];
    let deploys = vec![
        ("ok".to_string(), vec![row(Some("mine"), "r1", "v1")]),
        (
            "bad".to_string(),
            vec![row(Some("mine"), "r2", "v2"), row(Some("ghost"), "r3", "v3")],
        ),
    ];
    match get_config(&store, &deploys) {
        Err(ResolveError::UnresolvedCredentialAlias { credential, deploy_config }) => {
            assert_eq!(credential, "ghost");
            assert_eq!(deploy_config, "bad");
        }
        other => panic!("unexpected {:?}", other),
    }
}

#[test]
fn first_failing_row_decides_the_error() {
    let store = vec![
        ("a".to_string(), aws_profile("A")),
        ("b".to_string(), aws_profile("B")),
    ];
    let rows = vec![row(None, "r1", "v1"), row(Some("ghost"), "r2", "v2")];
    assert!(matches!(
        resolve_profile(&store, &"p".to_string(), &rows),
        Err(ResolveError::AmbiguousDefaultCredential { .. })
    ));
}

#[test]
fn every_profile_is_resolved() {
    let store = vec![("mine".to_string(), aws_profile("AK1"))];
    let deploys = vec![
        ("one".to_string(), vec![row(None, "r1", "v1")]),
        ("two".to_string(), vec![row(Some("mine"), "r2", "v2"), row(None, "r3", "v3")]),
    ];
    let out = get_config(&store, &deploys).unwrap();
    assert_eq!(out.len(), 2);
    assert_eq!(out[0].0, "one");
    assert_eq!(out[0].1.len(), 1);
    assert_eq!(out[1].0, "two");
    assert_eq!(out[1].1.len(), 2);
    assert_eq!(out[1].1[1].region, "r3");
}

#[test]
fn empty_deploy_profile_resolves_to_nothing() {
    let store = vec![("mine".to_string(), aws_profile("AK1"))];
    let out = resolve_profile(&store, &"p".to_string(), &vec![]).unwrap();
    assert!(out.is_empty());
}

#[test]
fn later_entry_of_a_duplicate_name_wins() {
    let store = vec![
        ("x".to_string(), aws_profile("OLD")),
        ("x".to_string(), aws_profile("NEW")),
    ];
    let out = resolve_profile(&store, &"p".to_string(), &vec![row(Some("x"), "r", "v")]).unwrap();
    assert_eq!(key_of(&out[0]), "NEW");
}

const CREDS: &str = r#"{"mine":{"credentials":{"accessKeyId":"AK1","secretAccessKey":"S1"},"cloudProvider":"AWS"}}"#;

#[test]
fn resolve_reads_both_files() {
    let deploys = r#"{"staging":[{"credentialProfile":"mine","region":"us-west-2","vmType":"t2.micro"},{"credentialProfile":null,"region":"us-east-1","vmType":"t3.small"},{"region":"eu-west-1","vmType":"t3.large"}]}"#;
    let out = resolve(Some(CREDS), Some(deploys)).unwrap();
    assert_eq!(out.len(), 1);
    assert_eq!(out[0].0, "staging");
    let rows = &out[0].1;
    assert_eq!(rows.len(), 3);
    assert_eq!(rows[0].region, "us-west-2");
    assert_eq!(rows[1].region, "us-east-1");
    assert_eq!(rows[2].region, "eu-west-1");
    assert_eq!(rows[2].vm_type, "t3.large");
    assert_eq!(key_of(&rows[2]), "AK1");
}

#[test]
fn resolve_reports_missing_files() {
    assert!(matches!(resolve(None, Some("{}")), Err(ResolveError::CredentialsFileMissing)));
    assert!(matches!(resolve(Some(CREDS), None), Err(ResolveError::DeployFileMissing)));
}

#[test]
fn resolve_reports_invalid_files() {
    assert!(matches!(resolve(Some("not json"), Some("{}")), Err(ResolveError::CredentialsFileInvalid)));
    assert!(matches!(resolve(Some(CREDS), Some("[1,2]")), Err(ResolveError::DeployFileInvalid)));
    assert!(matches!(
        resolve(Some(CREDS), Some(r#"{"p":[{"region":"r"}]}"#)),
        Err(ResolveError::DeployFileInvalid)
    ));
}

#[test]
fn resolve_reports_unknown_alias_from_files() {
    let deploys = r#"{"p":[{"credentialProfile":"other","region":"r","vmType":"v"}]}"#;
    match resolve(Some(CREDS), Some(deploys)) {
        Err(ResolveError::UnresolvedCredentialAlias { credential, deploy_config }) => {
            assert_eq!(credential, "other");
            assert_eq!(deploy_config, "p");
        }
        other => panic!("unexpected {:?}", other),
    }
}

#[test]
fn azure_profile_resolves() {
    let store = vec![(
        "az".to_string(),
        CredentialsProfile {
            credentials: Credentials::Azure(AzureCredentials {
                application_id: "app".to_string(),
                secret: "s".to_string(),
                subscription_id: "sub".to_string(),
                directory_id: "dir".to_string(),
            }),
            cloud_provider: "Azure".to_string(),
        },
    )];
    let out = resolve_profile(&store, &"p".to_string(), &vec![row(Some("az"), "eastus", "B1s")]).unwrap();
    assert_eq!(out[0].cloud_provider, "Azure");
    assert_eq!(key_of(&out[0]), "app");
}
