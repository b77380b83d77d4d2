//! The growable byte buffer of the `string_builder` crate, as the title
//! composer uses it.
//!
//! Verus does not look inside a `Builder`. What it holds is named by
//! [`builder_bytes`], and the three functions below say, without proof, what
//! the crate's methods do to it.

use std::string::FromUtf8Error;
use string_builder::Builder;
use vstd::prelude::*;
use vstd::utf8::*;

verus! {

/// Makes `string_builder::Builder` known to the verifier, as a type whose
/// inside it does not see.
#[verifier::external_type_specification]
#[verifier::external_body]
pub struct ExBuilder(string_builder::Builder);

/// Makes `std::string::FromUtf8Error` known to the verifier, as a type
/// whose inside it does not see.
#[verifier::external_type_specification]
#[verifier::external_body]
pub struct ExFromUtf8Error(std::string::FromUtf8Error);

/// The bytes that a builder holds, in the order in which they were appended.
pub uninterp spec fn builder_bytes(b: Builder) -> Seq<u8>;

/// Calls `Builder::default()`, which makes a builder over an empty buffer.
#[verifier::external_body]
pub(crate) fn builder_default() -> (b: Builder)
    ensures
        builder_bytes(b) == Seq::<u8>::empty(),
{
    Builder::default()
}

/// Calls `Builder::append` with a byte slice, which writes the whole slice
/// behind what the buffer already holds.
#[verifier::external_body]
pub(crate) fn builder_append(b: &mut Builder, bytes: &[u8])
    ensures
        builder_bytes(*final(b)) == builder_bytes(*old(b)) + bytes@,
{
    b.append(bytes)
}

/// Calls `Builder::string`, which hands the buffer to `String::from_utf8`:
/// a string whose UTF-8 encoding is exactly these bytes, or an error, which
/// comes only where the bytes are not UTF-8.
#[verifier::external_body]
pub(crate) fn builder_string(b: Builder) -> (r: Result<String, FromUtf8Error>)
    ensures
        match r {
            Ok(s) => encode_utf8(s@) == builder_bytes(b),
            Err(_) => !valid_utf8(builder_bytes(b)),
        },
{
    b.string()
}

} // verus!
