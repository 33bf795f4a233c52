[package]
name = "jg_launcher"
version = "0.1.0"
edition = "2021"
publish = false

[dependencies]
base64 = "0.22"
hex = "0.4"
ring = "0.17"
zip = { version = "2", default-features = false, features = ["deflate"] }
jclass = "*"
jni = { version = "0.21", features = ["invocation"] }
jni-sys = "0.3"
java-locator = "0.1"
libloading = "0.7"
mimalloc = { version = "*", default-features = false }
tikv-jemallocator = "*"
winapi = { version = "0.3", features = ["commctrl"] }
