[package]
name = "azure_functions_shared"
version = "0.1.0"
edition = "2021"
publish = false

[dependencies]
lazy_static = "1"
proc-macro2 = "1"
quote = "1"
serde = { version = "1", features = ["derive"] }
syn = { version = "1", features = ["full"] }

[dev-dependencies]
serde_json = "1"
