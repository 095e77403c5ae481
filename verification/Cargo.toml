[package]
name = "voxel_remesher"
version = "0.1.0"
edition = "2021"
publish = false

[dependencies]
anyhow = "*"
marching-cubes = "*"
tobj = "*"
