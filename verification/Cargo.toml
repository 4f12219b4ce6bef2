[package]
name = "shielded_pool"
version = "0.1.0"
edition = "2021"
publish = false

[dependencies]
anyhow = "=1.0.104"
ark-groth16 = { version = "0.4", default-features = false, features = ["std"] }
ark-serialize = "=0.4.2"
async-trait = "=0.1.92"
decaf377 = "=0.10.1"
decaf377-rdsa = "=0.11.0"
hex = "=0.4.3"
pbjson-build = "=0.6.2"
prost-build = "=0.12.6"
structopt = "=0.3.26"
tonic-build = "=0.10.2"

[dev-dependencies]
ark-relations = { version = "0.4", default-features = false }
rand_core = { version = "=0.6.4", features = ["getrandom"] }
