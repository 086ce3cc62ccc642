[package]
name = "cosmo"
version = "0.1.0"
edition = "2021"
publish = false

[dependencies]
chrono = "0.4"
color-art = "0.3"
uuid = { version = "1", features = ["v4"] }
yew = { version = "0.21", features = ["csr"] }
yew-router = "0.18"
yew-hooks = "0.3"
stylist = { version = "0.13", features = ["yew_integration", "macros"] }
bounce = { version = "0.9", features = ["helmet"] }
gloo = "0.11"
web-sys = { version = "0.3", features = ["File", "FileList", "HtmlElement", "HtmlInputElement", "HtmlSelectElement", "HtmlTextAreaElement", "DomRect", "Element"] }
derive_more = "0.99"
yew_icons = { version = "0.8", features = ["LucideLeaf"] }
