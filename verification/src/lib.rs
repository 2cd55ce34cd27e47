//! Content authentication and symmetric encryption over in-memory byte
//! buffers, together with the options, parsers and conversions of the
//! command-line tool built on top of them.
//!
//! The engine is in [`process::text`]: tags and signatures by a keyed hash
//! or by Ed25519, fresh keys for either, and encryption under a passphrase.
//! Every operation is a function of the bytes it is given. Reading input
//! and storing output is left to the caller.

mod bytes;
pub mod cli;
pub mod error;
pub mod keys;
pub mod primitives;
pub mod process;
pub mod strings;
pub mod utils;

pub use crate::cli::base64::Base64DecodeOpts;
pub use crate::cli::base64::Base64EncodeOpts;
pub use crate::cli::base64::Base64Format;
pub use crate::cli::base64::Base64SubCommand;
pub use crate::cli::csv::CsvOpts;
pub use crate::cli::csv::OutputFormat;
pub use crate::cli::genpass::GenPassOpts;
pub use crate::cli::http::HttpServeOpts;
pub use crate::cli::http::HttpSubCommand;
pub use crate::cli::jwt::JwtSignOpts;
pub use crate::cli::jwt::JwtSubCommand;
pub use crate::cli::jwt::JwtVerifyOpts;
pub use crate::cli::text::TextKeyGenerateOpts;
pub use crate::cli::text::TextSignFormat;
pub use crate::cli::text::TextSignOpts;
pub use crate::cli::text::TextSubCommand;
pub use crate::cli::text::TextVerifyOpts;
pub use crate::cli::Opts;
pub use crate::cli::SubCommand;
pub use crate::error::TextError;
pub use crate::process::b64::process_decode;
pub use crate::process::b64::process_encode;
pub use crate::process::csv_convert::process_csv;
pub use crate::process::gen_pass::process_genpass;
pub use crate::process::jwt::process_jwt_sign;
pub use crate::process::jwt::process_jwt_verify;
pub use crate::process::text::process_text_decrypt;
pub use crate::process::text::process_text_encrypt;
pub use crate::process::text::process_text_key_generate;
pub use crate::process::text::process_text_sign;
pub use crate::process::text::process_text_verify;
