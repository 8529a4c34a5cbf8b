[package]
name = "dacledit"
version = "0.1.0"
edition = "2021"
publish = false

[dependencies]
uuid = "1"
ldap3 = { version = "0.11", default-features = false, features = ["gssapi"] }
tokio = { version = "1", features = ["rt-multi-thread", "macros"] }
clap = { version = "4", features = ["derive"] }
