//! Attachments of an inbound message and the decision which of them need
//! re-encoding.

use vstd::prelude::*;
use crate::text::has_prefix;

verus! {

/// What the chat service reports of a file attached to a message.
#[derive(Clone, Debug, PartialEq, Eq)]
pub struct Attachment {
    pub url: String,
    pub content_type: Option<String>,
    pub width: Option<u64>,
    pub height: Option<u64>,
}

/// An attachment as plain mathematical data.
pub struct AttachmentView {
    pub url: Seq<char>,
    pub content_type: Option<Seq<char>>,
    pub width: Option<u64>,
    pub height: Option<u64>,
}

impl View for Attachment {
    type V = AttachmentView;

    open spec fn view(&self) -> AttachmentView {
        AttachmentView {
            url: self.url@,
            content_type: match self.content_type {
                Some(t) => Some(t@),
                None => None,
            },
            width: self.width,
            height: self.height,
        }
    }
}

/// The media types of video begin with this.
pub open spec fn video_prefix() -> Seq<char> {
    "video/"@
}

/// A media type is present and names a kind of video.
pub open spec fn is_video(content_type: Option<Seq<char>>) -> bool {
    content_type matches Some(t) && video_prefix().is_prefix_of(t)
}

/// The service fills in both dimensions only after it has parsed the video
/// stream, so a missing dimension marks a stream that clients cannot play.
pub open spec fn lacks_dimension(a: AttachmentView) -> bool {
    a.width is None || a.height is None
}

/// An attachment needs re-encoding exactly if it is a video that lacks a
/// dimension.
pub open spec fn needs_transcode(a: AttachmentView) -> bool {
    is_video(a.content_type) && lacks_dimension(a)
}

impl Attachment {
    /// Whether this attachment has to be re-encoded.
    pub fn needs_transcode(&self) -> (needed: bool)
        ensures
            needed == needs_transcode(self@),
    {
        match &self.content_type {
            Some(t) => has_prefix(t.as_str(), "video/") && (self.width.is_none()
                || self.height.is_none()),
            None => false,
        }
    }
}

} // verus!
