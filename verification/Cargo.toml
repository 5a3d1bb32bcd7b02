[package]
name = "ode_capsule"
version = "0.1.0"
edition = "2021"
publish = false

[dependencies]
diffsol = { version = "=0.17.1", features = ["diffsl-cranelift"] }
nalgebra = "=0.35.0"
wasm-bindgen = "=0.2.129"
js-sys = "=0.3.106"
