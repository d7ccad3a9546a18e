//! The fixed message fragments of the structured errors, one submodule per
//! error kind, each exposing its description and the two display fragments
//! that surround the dynamic part of the message.

pub mod get_last_error_fail;

pub mod os_error_failure;
