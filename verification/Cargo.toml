[package]
name = "titanium"
version = "0.1.0"
edition = "2021"
publish = false

[dependencies]
libc = "=0.2.191"
once_cell = "=1.21.4"
sysinfo = { version = "=0.29.11", default-features = false }
thiserror = "=1.0.69"
winapi = { version = "=0.3.9", features = ["errhandlingapi", "handleapi", "libloaderapi", "memoryapi", "minwindef", "ntdef", "processthreadsapi", "tlhelp32", "winnt"] }
