[package]
name = "mproc"
version = "0.1.0"
edition = "2021"
publish = false

[dependencies]
procfs = { version = "=0.18.0", default-features = false }
pareg = "=0.11.2"
termal = "=4.2.1"
winapi = { version = "=0.3.9", features = ["processthreadsapi", "psapi", "winnt", "minwindef"] }
