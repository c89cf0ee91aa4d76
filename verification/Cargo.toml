[package]
name = "kproc"
version = "0.1.0"
edition = "2021"
publish = false

[dependencies]
array-macro = "2"
