[package]
name = "ruffle_ios"
version = "0.1.0"
edition = "2021"
publish = false

[dependencies]
objc2 = "0.6"
objc2-foundation = "0.3"
objc2-ui-kit = "0.3"
objc2-core-data = "0.3"
objc2-core-foundation = "0.3"
objc2-quartz-core = "0.3"
block2 = "0.6"
async-task = "4"
tokio = { version = "1", features = ["macros", "rt-multi-thread"] }
tracing = "0.1"
tracing-subscriber = { version = "0.3", features = ["env-filter"] }
tracing-oslog = "0.3"
url = "2"
