[package]
name = "selection"
version = "0.1.0"
edition = "2021"
publish = false

[dependencies]
accessibility-sys = "=0.1.3"
arboard = "=3.7.0"
core-foundation = "=0.9.4"
enigo = "=0.1.3"
icrate = { version = "=0.0.4", features = ["AppKit", "AppKit_NSPasteboard", "AppKit_NSRunningApplication", "AppKit_NSWorkspace"] }
libc = "=0.2.191"
log = "=0.4.34"
