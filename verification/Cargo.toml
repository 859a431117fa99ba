[package]
name = "subnet_interpreter"
version = "0.1.0"
edition = "2021"
publish = false

[dependencies]
anyhow = "1"
async-trait = "0.1"
base64 = "0.21"
fvm = { version = "*", default-features = false }
fvm_ipld_blockstore = "*"
fvm_ipld_encoding = "*"
fvm_shared = "*"
hex = "0.4"
log = "0.4"
num-traits = "0.2"
serde = { version = "1", features = ["derive"] }
serde_json = "1"
tendermint-rpc = "0.34"
tokio = { version = "1", features = ["rt"] }
tracing = "0.1"
zeroize = "1"
