//! The byte buffer that texts of several parts are assembled in.

use std::string::FromUtf8Error;
use string_builder::Builder;
use vstd::prelude::*;
use vstd::utf8::{decode_utf8, encode_utf8, valid_utf8};

verus! {

/// `string_builder::Builder`, taken as it is: what it holds is known only
/// through `builder_bytes`.
#[verifier::external_type_specification]
#[verifier::external_body]
pub struct ExBuilder(Builder);

/// `std::string::FromUtf8Error`, taken as it is: nothing is read from it.
#[verifier::external_type_specification]
#[verifier::external_body]
pub struct ExFromUtf8Error(FromUtf8Error);

/// The bytes a `string_builder::Builder` holds, in the order they were appended.
pub uninterp spec fn builder_bytes(builder: Builder) -> Seq<u8>;

/// `string_builder::Builder::default`. Claimed of it: the new builder holds no bytes.
#[verifier::external_body]
pub(crate) fn new_builder() -> (r: Builder)
    ensures
        builder_bytes(r) == Seq::<u8>::empty(),
{
    Builder::default()
}

/// `string_builder::Builder::append`, on a `String`. Claimed of it: the UTF-8
/// bytes of the string are added after the bytes already held.
#[verifier::external_body]
pub(crate) fn append_text(builder: &mut Builder, text: String)
    ensures
        builder_bytes(*final(builder)) == builder_bytes(*old(builder)) + encode_utf8(text@),
{
    builder.append(text)
}

/// `string_builder::Builder::string`. Claimed of it: bytes that are valid
/// UTF-8 come back as the string they encode, and any other bytes as an error.
#[verifier::external_body]
pub(crate) fn into_text(builder: Builder) -> (r: Result<String, FromUtf8Error>)
    ensures
        match r {
            Ok(s) => valid_utf8(builder_bytes(builder)) && s@ == decode_utf8(builder_bytes(builder)),
            Err(_) => !valid_utf8(builder_bytes(builder)),
        },
{
    builder.string()
}

/// Encoding a text in two parts gives the bytes of the whole.
pub proof fn lemma_encode_concat(a: Seq<char>, b: Seq<char>)
    ensures
        encode_utf8(a + b) == encode_utf8(a) + encode_utf8(b),
    decreases a.len(),
{
    if a.len() == 0 {
        assert(a + b =~= b);
        assert(encode_utf8(a) + encode_utf8(b) =~= encode_utf8(b));
    } else {
        lemma_encode_concat(a.drop_first(), b);
        assert((a + b).drop_first() =~= a.drop_first() + b);
        assert(encode_utf8(a + b) =~= encode_utf8(a) + encode_utf8(b));
    }
}

/// A builder filled with the bytes of `text` and nothing else.
pub open spec fn holds_text(builder: Builder, text: Seq<char>) -> bool {
    builder_bytes(builder) == encode_utf8(text)
}

/// A builder that holds no text yet.
pub(crate) fn empty_builder() -> (r: Builder)
    ensures
        holds_text(r, Seq::<char>::empty()),
{
    let r = new_builder();
    assert(encode_utf8(Seq::<char>::empty()) =~= Seq::<u8>::empty());
    r
}

/// Adds `text` at the end of what the builder holds.
pub(crate) fn push_text(builder: &mut Builder, text: String, Ghost(held): Ghost<Seq<char>>)
    requires
        holds_text(*old(builder), held),
    ensures
        holds_text(*final(builder), held + text@),
{
    proof {
        lemma_encode_concat(held, text@);
    }
    append_text(builder, text);
}

/// The text the builder holds.
pub(crate) fn finish(builder: Builder, Ghost(held): Ghost<Seq<char>>) -> (r: Result<
    String,
    FromUtf8Error,
>)
    requires
        holds_text(builder, held),
    ensures
        r matches Ok(s) && s@ == held,
{
    proof {
        vstd::utf8::encode_utf8_valid_utf8(held);
        vstd::utf8::encode_utf8_decode_utf8(held);
    }
    into_text(builder)
}

} // verus!
