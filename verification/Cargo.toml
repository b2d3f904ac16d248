[package]
name = "java_compiler"
version = "0.1.0"
edition = "2021"
publish = false

[dependencies]
ristretto_classfile = "=0.25.0"
