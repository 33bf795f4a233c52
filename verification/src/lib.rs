//! Verified core of a protected-JAR Java launcher: command-line and
//! argument-file parsing, JAR signature trailers, JVM option assembly,
//! bytecode patching helpers and resource decryption.

pub mod error;
pub mod text;
pub mod cfg_parser;
pub mod codec;
pub mod jar_info;
pub mod crypto;
pub mod aes_util;
pub mod args_parser;
pub mod class_util;
pub mod class_file;
pub mod runtime_classes;
pub mod launcher_helper;
pub mod jvm_util;
