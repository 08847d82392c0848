[package]
name = "libfreenect2_rs"
version = "0.1.0"
edition = "2021"
publish = false

[dependencies]
anyhow = "=1.0.104"
attohttpc = "=0.31.0"
cxx = "=1.0.205"
hex = "=0.4.3"
image = { version = "=0.25.10", default-features = false }
log = "=0.4.34"
octocrab = "=0.40.0"
ring = "=0.17.14"
tokio = { version = "=1.54.1", features = ["rt", "macros"] }
zip-extract = "=0.4.1"

[dev-dependencies]
regex = "1"
