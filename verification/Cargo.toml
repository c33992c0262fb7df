[package]
name = "genocide"
version = "0.1.0"
edition = "2021"
publish = false

[dependencies]
tinytemplate = "1.2"
serde = { version = "1", features = ["derive"] }
serde_json = "1"
smallvec = "1"
widestring = "1"
winapi = { version = "0.3", features = ["minwindef", "libloaderapi", "winnt", "consoleapi", "wincon", "memoryapi", "processthreadsapi"] }
log = "0.4"
once_cell = "1"
dll-syringe = "*"
appdirs = "0.2"
log-panics = { version = "2", features = ["with-backtrace"] }
simple-logging = "2"
