//! A verified engine for signing, verifying, encrypting and decrypting text,
//! with the key handling and the text-safe encoding around it.

pub mod b64;
pub mod cli;
pub mod codec;
pub mod crypto;
pub mod error;
pub mod genpass;
pub mod jwt;
pub mod text;

pub use b64::{process_decode, process_encode};
pub use cli::{
    Base64DecodeOpts, Base64EncodeOpts, Base64Format, Base64SubCommand, CliError, CsvOpts,
    DecryptOpts, EncryptOpts, ExpObj, GenPassOpts, HttpServeOpts, HttpSubCommand, JwtSignOpts,
    JwtSubCommand, JwtVerifyOpts, Opts, OutputFormat, SubCommand, TextCryptFormat,
    TextKeyGenerateOpts, TextSignFormat, TextSignOpts, TextSubCommand, TextVerifyOpts, TimeUnit,
};
pub use error::TextError;
pub use genpass::{process_genpass, PasswordError};
pub use text::{
    process_decrypt, process_encrypt, process_generate_key, process_text_sign,
    process_text_verify, Blake3, Chacha20poly1305Obj, Ed25519Signer, Ed25519Verifier,
    KeyGenerator, KeyLoader, TextDecrypt, TextEncrypt, TextSign, TextVerify,
};
