[package]
name = "sheet_gen"
version = "0.1.0"
edition = "2021"
publish = false

[dependencies]
csv = "=1.4.0"
rss = "=2.1.2"
is-url = "*"
ureq = "=2.12.1"
serde_json = "=1.0.151"
