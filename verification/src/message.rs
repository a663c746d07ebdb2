//! What the bot sends: plain text or a rich embed, and the reference to an
//! image that an embed may carry.

use crate::text::{joined, final_segment, last_segment};
use vstd::prelude::*;

verus! {

/// Scheme under which an embed names a file uploaded with its message.
pub const ATTACHMENT_SCHEME: &'static str = "attachment://";

/// Where the image of an embed comes from.
#[derive(Clone, Debug, PartialEq, Eq)]
pub enum AttachmentRef {
    /// A file on this machine, to be read and uploaded with the message.
    LocalFile(String),
    /// An address that the chat service can fetch by itself.
    RemoteUrl(String),
}

/// Mathematical model of an [`AttachmentRef`].
pub enum AttachmentRefView {
    LocalFile(Seq<char>),
    RemoteUrl(Seq<char>),
}

impl AttachmentRefView {
    /// What the embed names as its image: for a local file the attachment
    /// scheme followed by the last segment of the path, for a remote image
    /// its address unchanged.
    pub open spec fn reference(self) -> Seq<char> {
        match self {
            AttachmentRefView::LocalFile(path) => ATTACHMENT_SCHEME@ + last_segment(path),
            AttachmentRefView::RemoteUrl(url) => url,
        }
    }
}

impl View for AttachmentRef {
    type V = AttachmentRefView;

    open spec fn view(&self) -> AttachmentRefView {
        match self {
            AttachmentRef::LocalFile(path) => AttachmentRefView::LocalFile(path@),
            AttachmentRef::RemoteUrl(url) => AttachmentRefView::RemoteUrl(url@),
        }
    }
}

impl AttachmentRef {
    /// The text that an embed carries as its image.
    pub fn reference(&self) -> (text: String)
        ensures
            text@ == self@.reference(),
    {
        match self {
            AttachmentRef::LocalFile(path) => {
                let name = final_segment(path.as_str());
                joined(ATTACHMENT_SCHEME, name.as_str())
            },
            AttachmentRef::RemoteUrl(url) => url.clone(),
        }
    }
}

/// One named section of an embed.
#[derive(Clone, Debug, PartialEq, Eq)]
pub struct EmbedField {
    pub label: String,
    pub body: String,
    pub inline: bool,
}

/// Mathematical model of an [`EmbedField`].
pub struct EmbedFieldView {
    pub label: Seq<char>,
    pub body: Seq<char>,
    pub inline: bool,
}

impl View for EmbedField {
    type V = EmbedFieldView;

    open spec fn view(&self) -> EmbedFieldView {
        EmbedFieldView { label: self.label@, body: self.body@, inline: self.inline }
    }
}

impl EmbedField {
    /// A section that takes a row of its own.
    pub fn block(label: &str, body: &str) -> (field: EmbedField)
        ensures
            field@ == block_field(label@, body@),
    {
        EmbedField { label: String::from_str(label), body: String::from_str(body), inline: false }
    }
}

/// The model of a section that takes a row of its own.
pub open spec fn block_field(label: Seq<char>, body: Seq<char>) -> EmbedFieldView {
    EmbedFieldView { label, body, inline: false }
}

/// A rich message.
#[derive(Clone, Debug, PartialEq, Eq)]
pub struct Embed {
    pub title: String,
    pub url: Option<String>,
    /// Accent colour, as `0xRRGGBB`.
    pub color: Option<u32>,
    pub fields: Vec<EmbedField>,
    pub image: Option<AttachmentRef>,
}

/// Mathematical model of an [`Embed`].
pub struct EmbedView {
    pub title: Seq<char>,
    pub url: Option<Seq<char>>,
    pub color: Option<u32>,
    pub fields: Seq<EmbedFieldView>,
    pub image: Option<AttachmentRefView>,
}

/// The models of `fields`, in order.
pub open spec fn field_views(fields: Seq<EmbedField>) -> Seq<EmbedFieldView> {
    Seq::new(fields.len(), |i: int| fields[i]@)
}

impl View for Embed {
    type V = EmbedView;

    open spec fn view(&self) -> EmbedView {
        EmbedView {
            title: self.title@,
            url: match self.url {
                Some(url) => Some(url@),
                None => None,
            },
            color: self.color,
            fields: field_views(self.fields@),
            image: match self.image {
                Some(image) => Some(image@),
                None => None,
            },
        }
    }
}

impl Embed {
    /// An accent colour is a 24-bit RGB value.
    pub open spec fn wf(&self) -> bool {
        self.color matches Some(rgb) ==> rgb <= 0xFF_FFFF
    }
}

/// What a command answers.
#[derive(Clone, Debug, PartialEq, Eq)]
pub enum OutgoingMessage {
    /// Plain text, sent to the channel the command came from.
    Say(String),
    /// Plain text, sent as a reply to the message that held the command.
    Reply(String),
    /// A rich message, sent to the channel the command came from.
    Embed(Embed),
}

/// Mathematical model of an [`OutgoingMessage`].
pub enum OutgoingMessageView {
    Say(Seq<char>),
    Reply(Seq<char>),
    Embed(EmbedView),
}

impl View for OutgoingMessage {
    type V = OutgoingMessageView;

    open spec fn view(&self) -> OutgoingMessageView {
        match self {
            OutgoingMessage::Say(text) => OutgoingMessageView::Say(text@),
            OutgoingMessage::Reply(text) => OutgoingMessageView::Reply(text@),
            OutgoingMessage::Embed(embed) => OutgoingMessageView::Embed(embed@),
        }
    }
}

} // verus!
