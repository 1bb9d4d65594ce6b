[package]
name = "nopt"
version = "0.1.0"
edition = "2021"
publish = false

[dependencies]
cranelift-codegen = "=0.135.5"
cranelift-frontend = "=0.135.5"
memmap2 = "=0.9.11"
target-lexicon = "=0.13.5"
