[package]
name = "fossil_git"
version = "0.1.0"
edition = "2021"
publish = false

[dependencies]
anyhow = "1"
async-channel = "2"
futures = "0.3"
git2 = { version = "0.20", default-features = false, features = ["vendored-libgit2"] }
log = "0.4"
parking_lot = "0.12"
rand = "0.9"
schemars = "1"
serde = { version = "1", features = ["derive"] }
smallvec = "1"
smol = "2"
thiserror = "2"
time = { version = "0.3", features = ["parsing"] }
which = "6"
