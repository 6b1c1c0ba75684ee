[package]
name = "compress_bench"
version = "0.1.0"
edition = "2021"
publish = false

[dependencies]
anyhow = "1"
average = "*"
csv = "1"
serde = { version = "1", features = ["derive"] }
flate2 = "1"
rust-lzma = "*"
brotli = "*"
brotlic = "*"
bzip2 = "*"
deflate = "*"
lz4_flex = "*"
lzma-rs = "*"
lzss = "*"
lzzzz = "*"
snap = "*"
tetsy-snappy = "*"
xsnappy = "*"
yazi = "*"
zopfli = "*"
zopfli-rs = "*"
zstd = "*"
easy-cast = "<0.5.5"
