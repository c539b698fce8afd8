[package]
name = "ruffle_android"
version = "0.1.0"
edition = "2021"
publish = false

[dependencies]
android-activity = { version = "*", features = ["game-activity"] }
android_logger = "*"
async-task = "4"
backtrace = "0.3"
jni = "0.21"
log = "0.4"
ndk = "*"
ndk-context = "0.1"
tokio = { version = "1", features = ["macros", "rt-multi-thread"] }
tracing = "0.1"
url = "2"
wgpu = "*"
