[package]
name = "voce"
version = "0.1.0"
edition = "2021"
publish = false

[dependencies]
dirs = "5"
serde = { version = "1", features = ["derive"] }
serde_json = "1"
anyhow = "1"
tracing = "0.1"
tracing-subscriber = { version = "0.3", features = ["env-filter"] }
tracing-appender = "0.2"
clap = { version = "4", features = ["derive"] }
crossbeam-channel = "0.5"
tokio = { version = "1", features = ["rt-multi-thread", "time", "fs", "io-util", "macros"] }
hound = "3"
rubato = "0.16"
nnnoiseless = "0.5"
cpal = "0.17"
rodio = { version = "0.22", default-features = false, features = ["playback"] }
reqwest = { version = "0.12", default-features = false, features = ["stream"] }
futures-util = "0.3"
libc = "0.2"
image = { version = "0.25", default-features = false, features = ["png"] }
open = "5"
voxudio = "*"
ort = "2.0.0-rc.10"
ndarray = "*"
kaldi-native-fbank = "*"
