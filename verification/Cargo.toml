[package]
name = "write_payment"
version = "0.1.0"
edition = "2021"
publish = false

[dependencies]
futures = "0.3"
sn_data_types = "=0.19.1"
sn_transfers = "=0.8.1"

[dev-dependencies]
bincode = "=1.3.3"
crdts = "=6.3.3"
rand = "=0.7.3"
threshold_crypto = "=0.4.0"
xor_name = "=1.3.0"
