[package]
name = "joule_peg"
version = "0.1.0"
edition = "2021"
publish = false

[dependencies]
soroban-sdk = "=23.5.3"
stellar-access = "=0.6.0"
stellar-contract-utils = "=0.6.0"
stellar-macros = "=0.6.0"
stellar-tokens = "=0.6.0"
