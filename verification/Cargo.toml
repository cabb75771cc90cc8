[package]
name = "imgopt"
version = "0.1.0"
edition = "2021"
publish = false

[dependencies]
sha1_smol = "=1.0.1"
url = "=2.5.8"
mime = "=0.3.17"
image = { version = "=0.25.10", default-features = false, features = ["jpeg", "png", "gif", "webp"] }
png = "=0.18.1"
resize = "=0.8.9"
rgb = "=0.8.53"
webp = "=0.3.1"
webp-animation = { version = "=0.10.0", features = ["image"] }
gif = "=0.14.2"
mp4 = "=0.14.0"
usvg = "=0.49.0"
resvg = "=0.49.0"
tiny-skia = "=0.12.0"
chrono = "=0.4.45"
cmd_lib = "=2.0.1"
anyhow = "=1.0.104"
log = "=0.4.34"
env_logger = "=0.11.11"
confy = "=2.0.0"
serde = { version = "=1.0.229", features = ["derive"] }
actix-web = { version = "=4.18.1", default-features = false, features = ["macros"] }
actix-cors = "=0.7.2"
awc = { version = "=3.11.0", default-features = false, features = ["rustls-0_23"] }
rustls = "=0.23.46"
webpki-roots = "=1.0.11"
aws-config = "=1.13.0"
aws-sdk-cloudfront = "=1.139.0"
aws-smithy-types = "=1.9.0"
