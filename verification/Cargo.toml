[package]
name = "yolo_lambda"
version = "0.1.0"
edition = "2021"
publish = false

[dependencies]
base64 = "*"
image = "*"
aws_lambda_events = "*"
lambda_http = "*"
log = "*"
tokio = { version = "*", features = ["macros", "rt"] }
tracing-subscriber = "*"
usls = "*"
