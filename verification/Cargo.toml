[package]
name = "navi"
version = "0.1.0"
edition = "2021"
publish = false

[dependencies]
anyhow = "=1.0.104"
git2 = { version = "=0.13.25", default-features = false }
regex = "=1.13.1"
skim = { version = "0.8", default-features = false }
walkdir = "=2.5.0"
