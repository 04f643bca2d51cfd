[package]
name = "snippet_harness"
version = "0.1.0"
edition = "2021"
publish = false

[dependencies]
serde = { version = "=1.0.229", features = ["derive"] }
serde_json = "=1.0.154"
rustpython-vm = "=0.5.0"
rustpython-stdlib = "=0.5.0"
rustpython-pylib = { version = "=0.5.0", features = ["freeze-stdlib"] }
# rustpython-vm 0.5.0 compiles against this release of libc and against no later one
libc = "=0.2.183"

[dev-dependencies]
# gives the interpreter in the tests the stack that a test thread lacks
stacker = "=0.1.25"
