[package]
name = "hyperspace_service"
version = "0.1.0"
edition = "2021"
publish = false

[dependencies]
futures = "=0.3.34"
sc-keystore = "38"
substrate-prometheus-endpoint = "=0.9.0"
