[package]
name = "crystal"
version = "0.1.0"
edition = "2021"
publish = false

[dependencies]
wasm-bindgen = "0.2"
js-sys = "0.3"
web-sys = { version = "0.3", features = ["WebGl2RenderingContext", "WebGlShader", "WebGlProgram", "WebGlBuffer", "WebGlTexture", "WebGlUniformLocation", "WebGlVertexArrayObject", "WebGlContextAttributes", "HtmlCanvasElement", "HtmlElement", "HtmlImageElement", "Window", "Document", "Element"] }
image = "0.22"
gl = "0.14"
metal = "0.18"
cocoa = "0.20"
objc = "0.2"
foreign-types = "0.3"
raw-window-handle = "0.3"
sdl2 = "0.34"
winit = "0.26"
