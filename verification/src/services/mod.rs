pub mod jwt;
pub mod stego;
