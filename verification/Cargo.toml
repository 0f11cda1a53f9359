[package]
name = "rubocop_daemon_wrapper"
version = "0.1.0"
edition = "2021"
publish = false

[dependencies]
which = "*"
fs2 = "0.4"
scopeguard = "1"

[dev-dependencies]
tempdir = "0.3"
tempfile = "3"
