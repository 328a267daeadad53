[package]
name = "gpui_mobile_core"
version = "0.1.0"
edition = "2021"
publish = false

[dependencies]
anyhow = "1"
futures = { version = "0.3", default-features = false, features = ["std"] }
gpui-pre = { version = "=0.3.11", default-features = false }
jni = "=0.22.4"
log = "0.4"
ndk = { version = "0.9", default-features = false, features = ["test"] }
ndk-sys = { version = "0.6", features = ["test"] }
objc2 = { version = "=0.6.5", features = ["gnustep-2-1"] }
parking_lot = "0.12"
