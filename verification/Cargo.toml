[package]
name = "precompile_dispatch"
version = "0.1.0"
edition = "2021"
publish = false

[dependencies]
evm = "=0.25.0"
fp-evm = "=1.0.0"
pallet-evm-precompile-blake2 = "=1.0.0"
pallet-evm-precompile-bn128 = "=1.0.0"
pallet-evm-precompile-modexp = "=1.0.0"
pallet-evm-precompile-simple = "=1.0.0"
primitive-types = "=0.9.1"
substrate-bip39 = "=0.4.2"
