//! What the library takes from the `serenity` crate: its message builder,
//! by which the link replies are put together, and its named colours.
//!
//! Nothing in this file is proved. Each contract restates what the crate's
//! source shows of the function that the body calls.

use vstd::prelude::*;

verus! {

#[verifier::external_type_specification]
#[verifier::external_body]
pub struct ExMessageBuilder(serenity::utils::MessageBuilder);

/// The text that a `serenity::utils::MessageBuilder` has gathered so far
/// (the `String` it wraps).
pub uninterp spec fn built_text(builder: serenity::utils::MessageBuilder) -> Seq<char>;

/// `MessageBuilder::new`: a builder that holds no text yet.
#[verifier::external_body]
pub(crate) fn new_builder() -> (builder: serenity::utils::MessageBuilder)
    ensures
        built_text(builder) == Seq::<char>::empty(),
{
    serenity::utils::MessageBuilder::new()
}

/// `MessageBuilder::push` with a string slice: the slice is appended to the
/// gathered text as it is, with no markup and no escaping.
#[verifier::external_body]
pub(crate) fn push_text(builder: &mut serenity::utils::MessageBuilder, text: &str)
    ensures
        built_text(*final(builder)) == built_text(*old(builder)) + text@,
{
    builder.push(text);
}

/// `MessageBuilder::build`: a copy of the gathered text; the builder keeps
/// what it holds.
#[verifier::external_body]
pub(crate) fn build_text(builder: &mut serenity::utils::MessageBuilder) -> (text: String)
    ensures
        text@ == built_text(*old(builder)),
        built_text(*final(builder)) == built_text(*old(builder)),
{
    builder.build()
}

/// `Colour::PURPLE`: the RGB value `(155, 89, 182)`.
#[verifier::external_body]
pub(crate) fn purple() -> (rgb: u32)
    ensures
        rgb == 0x9B59B6,
{
    serenity::utils::Colour::PURPLE.0
}

} // verus!
