[package]
name = "mick-jaeger"
version = "0.1.0"
edition = "2021"
publish = false

[dependencies]
futures = "0.3"
rand = "0.8"
thrift = "0.17"
