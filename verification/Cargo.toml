[package]
name = "telemetry_adapters"
version = "0.1.0"
edition = "2021"
publish = false

[dependencies]
quick-xml = "0.37"
anyhow = "1"
async-trait = "0.1"
tokio = { version = "1", features = ["rt", "rt-multi-thread", "net", "sync", "time", "macros"] }
tracing = "0.1"
winapi = { version = "0.3", features = ["handleapi", "tlhelp32", "memoryapi", "winnt", "minwindef"] }
