//! What can go wrong while a document is parsed.

use vstd::prelude::*;

verus! {

/// Why a parse stopped. Each of these ends the parse: no further post follows.
#[derive(Debug, Clone, Copy, PartialEq, Eq, Structural)]
pub enum FeedError {
    /// The document does not begin with an optional declaration and then a
    /// root element named `rss` or `feed`.
    MalformedDocument,
    /// The tokenizer reported a violation of XML's syntax, or made no progress.
    Syntax,
    /// Inside an entry stands a token that the grammar has no place for.
    UnexpectedToken,
    /// An Atom `<link/>` element has no `href` attribute.
    MissingHref,
    /// A timestamp is written in neither of the two accepted grammars.
    InvalidDate,
}

impl FeedError {
    /// A sentence for the error, for a log or a terminal.
    pub fn message(&self) -> (text: &'static str)
        ensures
            text@ == self.spec_message(),
    {
        match self {
            FeedError::MalformedDocument => "the document's root element is neither <rss> nor <feed>",
            FeedError::Syntax => "the document is not well-formed XML",
            FeedError::UnexpectedToken => "an entry holds a token that does not belong there",
            FeedError::MissingHref => "a <link/> element has no href attribute",
            FeedError::InvalidDate => "a timestamp is neither RFC 2822 nor RFC 3339",
        }
    }

    /// The sentence that [`FeedError::message`] returns.
    pub open spec fn spec_message(self) -> Seq<char> {
        match self {
            FeedError::MalformedDocument => "the document's root element is neither <rss> nor <feed>"@,
            FeedError::Syntax => "the document is not well-formed XML"@,
            FeedError::UnexpectedToken => "an entry holds a token that does not belong there"@,
            FeedError::MissingHref => "a <link/> element has no href attribute"@,
            FeedError::InvalidDate => "a timestamp is neither RFC 2822 nor RFC 3339"@,
        }
    }
}

} // verus!
