[package]
name = "dinput8_saga"
version = "0.1.0"
edition = "2021"
publish = false

[dependencies]
log = "0.4"
env_logger = "*"
retour = { version = "0.3", features = ["static-detour"] }
winapi = { version = "0.3", features = ["winuser", "minwindef", "ntdef", "consoleapi", "libloaderapi", "memoryapi", "processenv", "winbase", "winnt"] }
csv = "1"
bindgen = "*"
syn = { version = "2", features = ["full"] }
quote = "1"
