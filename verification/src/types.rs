//! Types common to Webmention requests, responses, and link feeds.

use vstd::prelude::*;

use crate::web::WebUrl;

verus! {

/// Events that can be sent and received as Webmentions.
#[derive(Debug)]
pub enum MentionType {
    /// The sender is replying to a previous entry.
    Reply,
    /// The sender liked a previous entry.
    Like,
    /// The sender reposted a previous entry.
    Repost,
    /// The sender bookmarked a previous entry.
    Bookmark,
    /// The sender accepted or rejected an invitation.
    Rsvp,
    /// Any other kind of mention.
    Mention,
}

/// Author who created the content and sent any associated payload.
#[derive(Debug)]
pub struct Author {
    /// Name of the author.
    pub name: String,
    /// URL of the author's homepage.
    pub url: String,
}

/// Representation of a Webmention payload.
#[derive(Debug)]
pub struct Mention {
    /// Author of the mention and its content.
    pub author: Author,
    /// Title of the mentioning entry.
    pub title: String,
    /// Content of the mentioning entry.
    pub content: String,
    /// URL of the mentioning entry.
    pub url: WebUrl,
    /// What kind of mention this is.
    pub mention_type: MentionType,
}

} // verus!
