[package]
name = "artifact_integrity"
version = "0.1.0"
edition = "2021"
publish = false

[dependencies]
sha2 = "0.10"
hex = "0.4"
pgp = "*"
cfg-if = "1"
console_error_panic_hook = "0.1"
console_log = "1"
js-sys = "0.3"
leptos = { version = "0.4", features = ["csr"] }
log = "0.4"
wasm-bindgen = "0.2"
wasm-bindgen-futures = "0.4"
web-sys = { version = "0.3", features = ["Blob", "File", "FileList", "HtmlInputElement"] }

[dev-dependencies]
rand = "0.8"
