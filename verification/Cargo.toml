[package]
name = "system_info"
version = "0.1.0"
edition = "2021"
publish = false

[dependencies]
chrono = "=0.4.45"
core-foundation = "=0.10.1"
gfxinfo = "=0.1.2"
iana-time-zone = "=0.1.65"
io-kit-sys = "=0.5.0"
mach2 = "=0.7.0"
napi = { version = "=3.15.0", features = ["chrono_date"] }
napi-derive = "=3.6.13"
num_cpus = "=1.17.0"
nvml-wrapper = "=0.13.0"
rust_decimal = "=1.43.0"
serde = { version = "=1.0.229", features = ["derive"] }
sysinfo = "=0.39.6"
windows = { version = "=0.62.2", features = ["Win32_Graphics_Dxgi", "Win32_Graphics_Dxgi_Common"] }
wmi = "=0.18.4"
