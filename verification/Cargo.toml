[package]
name = "ntdb_unwrap"
version = "0.1.0"
edition = "2021"
publish = false

[dependencies]
capstone = "=0.14.0"
object = "=0.40.0"
memchr = "=2.8.3"
md-5 = "=0.10.6"
hex = "=0.4.3"
memmap2 = "=0.9.12"
log = "=0.4.34"
env_logger = "=0.11.11"
dirs = "=7.0.0"
clap = { version = "=4.6.7", features = ["cargo"] }
windows = { version = "0.58", features = ["Win32_Foundation", "Win32_Security", "Win32_System_Diagnostics_Debug", "Win32_System_Diagnostics_ToolHelp", "Win32_System_Kernel", "Win32_System_Threading"] }
windows-registry = "=0.100.0"
