[package]
name = "yew_mdx"
version = "0.1.0"
edition = "2021"
publish = false

[dependencies]
markdown = "*"
yew = { version = "*", features = ["csr"] }
