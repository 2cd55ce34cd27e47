//! What the commands compute.

pub mod b64;
pub mod csv_convert;
pub mod gen_pass;
pub mod http_serve;
pub mod jwt;
pub mod text;
