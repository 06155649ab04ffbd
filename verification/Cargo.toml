[package]
name = "video_converter"
version = "0.1.0"
edition = "2021"
publish = false

[dependencies]
regex = "1"
structopt = "0.3"
clap = "2"
itertools = "*"
log = "0.4"
pretty_env_logger = "*"
ffmpeg-next = "*"
