pub mod toolchain;
