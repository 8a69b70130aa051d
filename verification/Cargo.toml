[package]
name = "std_reference"
version = "0.1.0"
edition = "2021"
publish = false

[dependencies]
near-sdk = "2.0.0"
borsh = "0.7.1"
wee_alloc = { version = "0.4.5", default-features = false }
