[package]
name = "peep"
version = "0.1.0"
edition = "2021"
publish = false

[dependencies]
ctrlc = "3"
getopts = "0.2"
inotify = { version = "0.9", default-features = false }
libc = "0.2"
mio = { version = "0.8", features = ["os-poll", "os-ext"] }
nix = "0.26"
regex = "1"
termion = "1.5"
termios = "0.3"
unicode-width = "0.1"
