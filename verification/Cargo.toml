[package]
name = "de_idle"
version = "0.1.0"
edition = "2021"
publish = false

[dependencies]
futures-channel = "0.3"
gloo-timers = "0.3"
plotters = { version = "0.3", default-features = false, features = ["line_series"] }
plotters-backend = "0.3"
plotters-canvas = "0.3"
wasm-bindgen = "0.2"
wasm-bindgen-futures = "0.4"
web-sys = { version = "0.3", features = ["Window", "Document", "Element", "HtmlElement", "HtmlCanvasElement", "HtmlSelectElement", "CssStyleSheet", "StyleSheetList", "StyleSheet", "Screen", "CssStyleDeclaration", "Node", "EventTarget"] }
