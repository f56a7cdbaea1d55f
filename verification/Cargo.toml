[package]
name = "node_os"
version = "0.1.0"
edition = "2021"
publish = false

[dependencies]
errno = "0.2"
libc = "0.2"
whoami = "1"
winapi = { version = "0.3", features = ["handleapi", "minwindef", "ntdef", "processthreadsapi", "winbase", "winnt"] }
