use anycloud::client::{
    classify_response, client_error, endpoint_url, get_url, info, outcome, terminate, Operation,
    PostV1Error, RequestContext, FORBIDDEN_OPERATION, NAME_CONFLICT, REQUEST_TIMEOUT,
    UNAUTHORIZED_OPERATION,
};
use anycloud::logger::ErrorType;
use anycloud::model::{AWSCredentials, Config, Credentials};

#[test]
fn statuses_are_classified() {
    assert!(matches!(classify_response(200, "id-1".to_string()), Ok(b) if b == "id-1"));
    assert!(matches!(classify_response(204, String::new()), Ok(b) if b.is_empty()));
    assert!(matches!(classify_response(408, "x".to_string()), Err(PostV1Error::Timeout)));
    assert!(matches!(classify_response(403, "x".to_string()), Err(PostV1Error::Forbidden)));
    assert!(matches!(classify_response(409, "x".to_string()), Err(PostV1Error::Conflict)));
    assert!(matches!(classify_response(401, "x".to_string()), Err(PostV1Error::Unauthorized)));
    assert!(matches!(classify_response(500, "boom".to_string()), Err(PostV1Error::Other(b)) if b == "boom"));
    assert!(matches!(classify_response(404, "{\"e\":1}".to_string()), Err(PostV1Error::Other(b)) if b == "{\"e\":1}"));
    assert!(matches!(classify_response(302, "moved".to_string()), Err(PostV1Error::Other(_))));
}

#[test]
fn unauthorized_clears_token() {
    let resp = classify_response(401, String::new());
    let o = outcome(&Operation::Info, &resp);
    assert!(o.clears_token);
    assert!(!o.succeeded);
    assert_eq!(o.message, UNAUTHORIZED_OPERATION);
    let other = outcome(&Operation::Info, &classify_response(403, String::new()));
    assert!(!other.clears_token);
    assert_eq!(other.message, FORBIDDEN_OPERATION);
}

#[test]
fn outcome_messages() {
    let t = Operation::Terminate("c-1".to_string());
    assert_eq!(outcome(&t, &Ok(String::new())).message, "Terminated app c-1 successfully!");
    assert_eq!(
        outcome(&t, &Err(PostV1Error::Conflict)).message,
        format!("Failed to terminate app c-1. Error: {}", NAME_CONFLICT)
    );
    assert_eq!(
        outcome(&t, &Err(PostV1Error::Other("bad".to_string()))).message,
        "Failed to terminate app c-1. Error: bad"
    );
    let n = outcome(&Operation::New, &Ok("app-7".to_string()));
    assert!(n.succeeded);
    assert_eq!(n.message, "Created app with id app-7 successfully!");
    assert_eq!(outcome(&Operation::Upgrade, &Ok(String::new())).message, "Upgraded app successfully!");
    assert_eq!(outcome(&Operation::New, &Err(PostV1Error::Timeout)).message, REQUEST_TIMEOUT);
    assert_eq!(
        outcome(&Operation::Info, &Err(PostV1Error::Other("down".to_string()))).message,
        "Displaying status for apps failed with error: down"
    );
}

#[test]
fn base_urls() {
    assert_eq!(get_url("local"), "http://localhost:8080");
    assert_eq!(get_url("staging"), "https://deploy-staging.alantechnologies.com");
    assert_eq!(get_url("production"), "https://deploy.alantechnologies.com");
    assert_eq!(get_url(""), "https://deploy.alantechnologies.com");
    assert_eq!(endpoint_url("local", "info"), "http://localhost:8080/v1/info");
}

fn ctx(cluster: Option<&str>) -> RequestContext {
    RequestContext {
        access_token: "tok".to_string(),
        alan_version: "0.1.40".to_string(),
        os_name: "linux".to_string(),
        cluster_id: cluster.map(|c| c.to_string()),
    }
}

#[test]
fn error_report_body() {
    let body = client_error(ErrorType::InvalidCredentialAlias, "not \"found\"", &ctx(Some("c9")));
    assert_eq!(
        body,
        r#"{"errorCode":112,"message":"not \"found\"","accessToken":"tok","alanVersion":"v0.1.40","osName":"linux","clusterId":"c9"}"#
    );
    let v: serde_json::Value = serde_json::from_str(&client_error(ErrorType::InvalidPwd, "m", &ctx(None))).unwrap();
    assert_eq!(v["errorCode"], 100);
    assert!(v.get("clusterId").is_none());
}

#[test]
fn terminate_and_info_bodies() {
    let configs = vec![(
        "staging".to_string(),
        vec![Config {
            credentials: Credentials::AWS(AWSCredentials {
                access_key_id: "AK".to_string(),
                secret_access_key: "SK".to_string(),
            }),
            region: "us-west-2".to_string(),
            cloud_provider: "AWS".to_string(),
            vm_type: "t2.micro".to_string(),
        }],
    )];
    let t = terminate(&configs, "c-1", &ctx(None));
    assert_eq!(
        t,
        r#"{"deployConfig":{"staging":[{"credentials":{"accessKeyId":"AK","secretAccessKey":"SK"},"region":"us-west-2","cloudProvider":"AWS","vmType":"t2.micro"}]},"clusterId":"c-1","accessToken":"tok","alanVersion":"v0.1.40","osName":"linux"}"#
    );
    let i: serde_json::Value = serde_json::from_str(&info(&configs, &ctx(None))).unwrap();
    assert_eq!(i["deployConfig"]["staging"][0]["vmType"], "t2.micro");
    assert_eq!(i["accessToken"], "tok");
}

#[test]
fn error_codes() {
    assert_eq!(ErrorType::InvalidPwd.code(), 100);
    assert_eq!(ErrorType::InvalidCredentialsFile.code(), 108);
    assert_eq!(ErrorType::InvalidDefaultCredentialAlias.code(), 111);
    assert_eq!(ErrorType::RunAgzFailed.code(), 122);
}
