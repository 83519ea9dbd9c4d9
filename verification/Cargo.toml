[package]
name = "taurin"
version = "0.1.0"
edition = "2021"
publish = false

[dependencies]
yew = { version = "=0.23.0", features = ["csr"] }
web-sys = { version = "=0.3.107", features = ["Window", "Navigator", "Clipboard", "Document", "Element", "DomRect", "HtmlInputElement", "HtmlTextAreaElement", "HtmlSelectElement", "KeyboardEvent", "MouseEvent", "InputEvent", "FocusEvent", "Event", "EventTarget", "console"] }
wasm-bindgen = "=0.2.130"
wasm-bindgen-futures = "=0.4.80"
js-sys = "=0.3.107"
serde = { version = "=1.0.229", features = ["derive"] }
serde_json = "=1.0.154"
serde-wasm-bindgen = "=0.6.5"
gloo-timers = "=0.3.0"
i18nrs = { version = "=0.1.10", features = ["yew"] }
