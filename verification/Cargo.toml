[package]
name = "aviutl2_audio_rec"
version = "0.1.0"
edition = "2021"
publish = false

[dependencies]
aviutl2 = { version = "=0.52.1", default-features = false, features = ["generic"] }
cpal = "=0.17.3"
hound = "=3.5.1"
serde = { version = "=1.0.229", features = ["derive"] }
serde_json = "=1.0.154"
tracing = "=0.1.44"
windows = { version = "=0.62.2", features = ["Win32_Foundation", "Win32_Security", "Win32_Storage_FileSystem", "Win32_System_IO", "Win32_System_Pipes", "Win32_System_SystemInformation"] }
