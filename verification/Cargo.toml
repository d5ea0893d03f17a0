[package]
name = "ferrisetw"
version = "2.0.0"
edition = "2021"
publish = false

[dependencies]
bitflags = "=2.13.2"
log = "=0.4.35"
memchr = "=2.8.3"
num-traits = "=0.2.19"
once_cell = "=1.21.4"
rustc-hash = "=2.1.3"
serde = { version = "=1.0.229", features = ["derive"] }
time = { version = "=0.3.55", features = ["large-dates", "serde"] }
widestring = "=1.2.1"
windows-core = "=0.62.2"
zerocopy = "=0.8.63"

[dependencies.windows]
version = "=0.62.2"
features = [
    "Win32_Foundation",
    "Win32_Security",
    "Win32_Security_Authorization",
    "Win32_System_Com",
    "Win32_System_Diagnostics_Etw",
    "Win32_System_Memory",
    "Win32_System_Ole",
    "Win32_System_Performance",
    "Win32_System_SystemInformation",
    "Win32_System_Time",
    "Win32_System_Variant",
]

[dev-dependencies]
serde_json = "=1.0.154"
