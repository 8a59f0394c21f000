[package]
name = "span_pipeline"
version = "0.1.0"
edition = "2021"
publish = false

[dependencies]
url = "=2.5.8"
tonic = { version = "=0.14.6", features = ["tls-ring"] }
actix-web = "=4.15.0"
dotenv = "=0.15.0"
opentelemetry = "=0.33.0"
opentelemetry_sdk = "=0.33.0"
opentelemetry-otlp = { version = "=0.33.0", default-features = false, features = ["trace", "grpc-tonic", "tls-ring"] }
tracing = "=0.1.44"
tracing-actix-web = "=0.7.25"
tracing-opentelemetry = "=0.34.0"
tracing-subscriber = "=0.3.23"
