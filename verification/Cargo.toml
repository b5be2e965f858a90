[package]
name = "otp_auth"
version = "0.1.0"
edition = "2021"
publish = false

[dependencies]
rand = "0.8"
sha2 = "0.10"
hex = "0.4"
uuid = { version = "1", features = ["v4"] }
chrono = "0.4"
serde = { version = "1", features = ["derive"] }
serde_json = "1"
thiserror = "1"
tokio = { version = "1", features = ["macros", "rt-multi-thread"] }
tracing = "0.1"
tracing-subscriber = "0.3"
lambda_runtime = "*"
aws_lambda_events = { version = "*", default-features = false, features = ["cognito", "sqs"] }
aws-config = { version = "1", default-features = false, features = ["behavior-version-latest", "rt-tokio"] }
aws-sdk-dynamodb = { version = "1", default-features = false, features = ["behavior-version-latest", "rt-tokio"] }
aws-sdk-ses = { version = "1", default-features = false, features = ["behavior-version-latest", "rt-tokio"] }
aws-sdk-sqs = { version = "1", default-features = false, features = ["behavior-version-latest", "rt-tokio"] }
aws-sdk-cognitoidentityprovider = { version = "1", default-features = false, features = ["behavior-version-latest", "rt-tokio"] }
