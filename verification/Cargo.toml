[package]
name = "drbug"
version = "0.1.0"
edition = "2021"
publish = false

[dependencies]
nix = { version = "*", features = ["fs", "process", "ptrace", "signal", "uio"] }
libc = "*"
iced-x86 = { version = "*", default-features = false, features = ["std", "decoder", "gas"] }
clap = { version = "*", features = ["derive"] }
rustyline = "*"
shlex = "*"
anyhow = "*"
