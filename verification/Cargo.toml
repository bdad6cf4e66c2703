[package]
name = "liborchestra"
version = "0.1.0"
edition = "2021"
publish = false

[dependencies]
chashmap = "*"
chrono = "*"
crossbeam = "*"
dirs = "*"
fasthash = "*"
futures = { version = "*", features = ["thread-pool"] }
git2 = { version = "*", default-features = false }
globset = "*"
ignore = "*"
libc = "*"
quote = "*"
regex = "*"
serde = { version = "*", features = ["derive"] }
serde_json = "*"
serde_yaml = "*"
sha1 = "*"
ssh2 = "*"
syn = "*"
tar = "*"
url = "*"
uuid = { version = "*", features = ["v4"] }
walkdir = "*"
yaml-rust = "*"
