[package]
name = "saraswati"
version = "0.1.0"
edition = "2021"
publish = false

[dependencies]
swc_common = { version = "=26.0.0", features = ["tty-emitter"] }
swc_ecma_ast = "=29.0.2"
swc_ecma_parser = "=45.1.6"
thiserror = "=2.0.21"
