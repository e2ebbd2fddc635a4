[package]
name = "orbolay"
version = "0.1.0"
edition = "2021"
publish = false

[dependencies]
bytes = "1"
chrono = "*"
dirs = "*"
display-info = "*"
flume = "*"
gumdrop = "*"
interprocess = "*"
native-dialog = "*"
notify = "*"
rdev = { version = "*", features = ["serialize"] }
serde = { version = "1", features = ["derive"] }
serde_json = "1"
sysinfo = "*"
tungstenite = "*"
ureq = "*"
url = "2"
x11rb = { version = "*", features = ["shape"] }
