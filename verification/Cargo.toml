[package]
name = "gadb"
version = "0.1.0"
edition = "2021"
publish = false

[dependencies]
nix = { version = "*", features = ["ptrace", "process", "signal", "personality", "uio", "fs"] }
libc = "0.2"
iced-x86 = { version = "*", default-features = false, features = ["decoder", "gas", "std"] }
extended = "*"
copperline = "*"
