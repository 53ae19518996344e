[package]
name = "curvy"
version = "0.1.0"
edition = "2021"
publish = false

[dependencies]
approx = "=0.3.2"
decorum = { version = "=0.3.1", default-features = false, features = ["std"] }
libm = "=0.2.16"
more-asserts = "=0.2.2"
num-traits = "=0.2.19"
svg = "=0.18.0"
thiserror = "=1.0.69"
