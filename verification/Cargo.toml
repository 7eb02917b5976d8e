[package]
name = "validate_npm_package_name"
version = "0.1.0"
edition = "2021"
publish = false

[dependencies]
builtin_modules = "*"
uri_encode = "*"
