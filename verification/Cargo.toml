[package]
name = "geotiff"
version = "0.1.0"
edition = "2021"
publish = false

[dependencies]
byteorder = "=1.5.0"
delaunator = "=1.1.0"
geo-index = "=0.1.1"
geo-types = "=0.7.20"
miniz_oxide = "=0.8.9"
tiff = "0.9"
