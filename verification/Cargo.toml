[package]
name = "olive_solve"
version = "0.1.0"
edition = "2021"
publish = false

[dependencies]
chrono = "0.4"
nalgebra = "*"
linux-embedded-hal = "*"
bno080 = "*"
mpu6050-driver = "*"
bmi160 = "*"
