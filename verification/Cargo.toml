[package]
name = "curve_lvr"
version = "0.1.0"
edition = "2021"
publish = false

[dependencies]
alloy-primitives = "=0.7.6"
alloy-sol-macro = "=0.7.6"
alloy-sol-macro-expander = "=0.7.6"
alloy-sol-macro-input = "=0.7.6"
alloy-sol-types = "=0.7.6"
ruint = "=1.12.4"
stylus-sdk = "=0.6.1"
syn-solidity = "=0.7.6"
