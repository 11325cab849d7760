[package]
name = "cosmos-chess"
version = "0.1.0"
edition = "2021"
publish = false

[dependencies]
cosmwasm-std = "=1.5.11"
cw2 = "=0.16.0"
cw-storage-plus = "=0.16.0"
serde = { version = "=1.0.229", default-features = false, features = ["derive"] }
thiserror = "=1.0.69"
shakmaty = "=0.27.3"
