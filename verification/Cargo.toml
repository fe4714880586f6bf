[package]
name = "document_picker"
version = "0.1.0"
edition = "2021"
publish = false

[dependencies]
objc = "0.2"
pin-project = "1"
stable_deref_trait = "1"
tokio = { version = "1", default-features = false, features = ["sync"] }
tokio-stream = { version = "0.1", default-features = false, features = ["sync"] }
