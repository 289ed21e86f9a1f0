[package]
name = "mockmail"
version = "0.1.0"
edition = "2021"
publish = false

[dependencies]
anyhow = "*"
async-trait = "*"
log = "*"
rusoto_core = "*"
rusoto_ses = "*"
