use otp_auth::naming::RuntimeConfig;

#[test]
fn test_resource_naming() {
    let config = RuntimeConfig {
        app_name: "appre".to_string(),
        environment: "test".to_string(),
    };

    assert_eq!(config.resource_name("users"), "appre-test-users");
    assert_eq!(config.dynamo_table("auth-otps"), "appre-test-auth-otps");
    assert_eq!(config.lambda_function("email-processor"), "appre-test-email-processor");
    assert_eq!(config.sqs_queue("email-queue"), "appre-test-email-queue");
    assert_eq!(config.ses_template("otp"), "appre-test-otp");
}
