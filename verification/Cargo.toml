[package]
name = "http_queue"
version = "0.1.0"
edition = "2021"
publish = false

[dependencies]
windows = { version = "=0.48.0", features = ["Win32_Foundation", "Win32_Networking_HttpServer", "Win32_Networking_WinSock", "Win32_Security", "Win32_System_IO", "Win32_System_Threading"] }
