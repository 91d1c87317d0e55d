[package]
name = "trampoline_sdk"
version = "0.1.0"
edition = "2021"
publish = false

[dependencies]
ckb-types = "0.101"
ckb-hash = "0.101"
ckb-util = "0.101"
rand = "0.8"
ckb-script = "0.101"
ckb-chain-spec = "0.101"
ckb-error = "0.101"
ckb-traits = "0.101"
ckb-jsonrpc-types = "0.101"
ckb-resource = "0.101"
ckb-system-scripts = "0.5.4"
ckb-always-success-script = "0.0.1"
thiserror = "1.0"
