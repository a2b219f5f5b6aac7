[package]
name = "qynauth_pqc"
version = "0.1.0"
edition = "2021"
publish = false

[dependencies]
chrono = "0.4"
libc = "0.2"
log = "0.4"
num_cpus = "1"
once_cell = "1"
pqcrypto-mldsa = "*"
pqcrypto-mlkem = "*"
pqcrypto-traits = "0.3"
rand = "0.8"
rayon = "1"
secrecy = "0.8"
serde = { version = "1", features = ["derive"] }
serde_json = "1"
sha2 = "0.10"
subtle = "2"
thiserror = "1"
tracing = "0.1"
uuid = { version = "1", features = ["v4"] }
zeroize = "1"
