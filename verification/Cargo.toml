[package]
name = "optiosk"
version = "0.1.0"
edition = "2021"
publish = false

[dependencies]
camino = "*"
file-format = "*"
optivorbis = "*"
oxipng = { version = "*", default-features = false, features = ["parallel"] }
anyhow = "*"
eyre = "*"
clap = { version = "*", features = ["derive"] }
hound = "*"
minimp3 = "*"
vorbis_rs = "*"
mozjpeg = "*"
memmap2 = "*"
piz = "*"
rayon = "*"
zip = { version = "*", default-features = false, features = ["deflate", "bzip2"] }
