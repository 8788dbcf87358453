[package]
name = "os_locale"
version = "0.1.0"
edition = "2021"

[dependencies]
jni = "0.21"
libc = "0.2"
ndk-context = "0.1"
objc2 = "0.5"
objc2-foundation = { version = "0.2", features = ["NSString"] }
winapi = { version = "0.3", features = ["winnls", "winnt"] }
