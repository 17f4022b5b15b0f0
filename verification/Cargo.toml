[package]
name = "swc_nativewind"
version = "0.1.0"
edition = "2021"
publish = false

[dependencies]
camino = "=1.1.9"
regex = "=1.13.1"
semver = "=1.0.26"
serde = "=1.0.219"
serde_json = "=1.0.140"
swc_core = { version = "=0.90.37", features = ["common", "ecma_ast", "ecma_plugin_transform", "ecma_utils", "ecma_visit"] }
tracing = "=0.1.44"
