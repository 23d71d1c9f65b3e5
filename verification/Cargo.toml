[package]
name = "sandbox"
version = "0.1.0"
edition = "2021"
publish = false

[dependencies]
rustpython-vm = "=0.5.0"
# The interpreter's optional standard-library module set. Its current releases
# do not compile against this dependency set (its pymath pulls a second,
# incompatible malachite-bigint), so the library builds the interpreter
# without it and nothing here links it.
rustpython-stdlib = "=0.5.0"
# Version-unification pins, not called directly: newer libc changes the type
# of constants that rustpython-vm 0.5.0 reads, and rustpython expects the
# 0.9 line of malachite-bigint.
libc = "=0.2.183"
malachite-bigint = "=0.9.2"
