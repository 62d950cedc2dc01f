[package]
name = "pty_shell"
version = "0.1.0"
edition = "2021"
publish = false

[dependencies]
libc = "=0.2.190"
nix = { version = "=0.31.3", features = ["process", "signal", "term"] }
pty = "=0.2.2"
rustix = { version = "=1.1.5", features = ["pty", "stdio", "termios"] }
url = "=2.5.8"
