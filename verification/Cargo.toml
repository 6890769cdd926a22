[package]
name = "audrey"
version = "0.1.0"
edition = "2021"
publish = false

[dependencies]
claxon = "0.4"
hound = "3.5"
lewton = "0.10"
dasp_sample = "0.11"
dasp_frame = "0.11"
