[package]
name = "offstage"
version = "0.1.0"
edition = "2021"
publish = false

[dependencies]
anyhow = "1"
duct = "*"
git2 = { version = "*", default-features = false }
globset = "0.4"
itertools = "*"
structopt = "0.3"

[dev-dependencies]
tempfile = "3"
