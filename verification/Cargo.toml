[package]
name = "minifier_passes"
version = "0.1.0"
edition = "2021"
publish = false

[dependencies]
oxc_allocator = "0.47"
oxc_ast = "0.47"
oxc_diagnostics = "0.47"
oxc_span = "0.47"
oxc_traverse = "0.47"
