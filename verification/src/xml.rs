//! The tokenizer that the feed parser pulls from: `quick_xml`'s reader over an
//! in-memory document. Nothing of it is verified here. This file says what is
//! taken on trust: that each answer of a reader is a function of the reader's
//! state, and what the state of a new reader is.

use quick_xml::errors::IllFormedError;
use quick_xml::escape::EscapeError;
use quick_xml::events::{BytesStart, Event};
use quick_xml::name::QName;
use quick_xml::Reader;
use vstd::prelude::*;
use vstd::string::StringSliceAdditionalSpecFns;

verus! {

#[verifier::external_type_specification]
#[verifier::external_body]
#[verifier::reject_recursive_types(R)]
pub struct ExReader<R>(Reader<R>);

#[verifier::external_type_specification]
#[verifier::external_body]
pub struct ExXmlError(quick_xml::Error);

#[verifier::external_type_specification]
#[verifier::external_body]
pub struct ExEscapeError(EscapeError);

/// One token of the document, reduced to what the feed grammar looks at.
#[derive(Debug, Clone, PartialEq, Eq)]
pub enum Token {
    /// `<?xml ...?>`
    Decl,
    /// `<name ...>`
    Start { name: Vec<u8> },
    /// `<name .../>`, with the raw text that follows the name inside the tag.
    Empty { name: Vec<u8>, attributes: String },
    /// `</name>`
    End { name: Vec<u8> },
    /// Anything else: character data, a CDATA section, a comment, a processing
    /// instruction, or a document type.
    Other,
    /// The end of the document.
    Eof,
}

/// A [`Token`] as a mathematical value.
pub enum TokenView {
    Decl,
    Start { name: Seq<u8> },
    Empty { name: Seq<u8>, attributes: Seq<char> },
    End { name: Seq<u8> },
    Other,
    Eof,
}

impl View for Token {
    type V = TokenView;

    open spec fn view(&self) -> TokenView {
        match *self {
            Token::Decl => TokenView::Decl,
            Token::Start { name } => TokenView::Start { name: name@ },
            Token::Empty { name, attributes } => TokenView::Empty { name: name@, attributes: attributes@ },
            Token::End { name } => TokenView::End { name: name@ },
            Token::Other => TokenView::Other,
            Token::Eof => TokenView::Eof,
        }
    }
}

/// What the parser asks of the tokenizer.
#[derive(Debug, Clone, PartialEq, Eq)]
pub enum Request {
    /// Read the next token.
    Token,
    /// Read the raw text up to the end tag called `name`.
    Text { name: Vec<u8> },
    /// Skip everything up to and including the end tag called `name`.
    End { name: Vec<u8> },
}

/// A [`Request`] as a mathematical value.
pub enum RequestView {
    Token,
    Text { name: Seq<u8> },
    End { name: Seq<u8> },
}

impl View for Request {
    type V = RequestView;

    open spec fn view(&self) -> RequestView {
        match *self {
            Request::Token => RequestView::Token,
            Request::Text { name } => RequestView::Text { name: name@ },
            Request::End { name } => RequestView::End { name: name@ },
        }
    }
}

/// What the tokenizer answered.
#[derive(Debug, Clone, PartialEq, Eq)]
pub enum Reply {
    /// The token that was read.
    Token(Token),
    /// The raw text that was read up to the end tag.
    Text(String),
    /// The end tag was found and passed.
    Closed,
    /// The document ended before the end tag.
    Truncated,
    /// The tokenizer reported an error, or did not move.
    Failed,
}

/// A [`Reply`] as a mathematical value.
pub enum ReplyView {
    Token(TokenView),
    Text(Seq<char>),
    Closed,
    Truncated,
    Failed,
}

impl View for Reply {
    type V = ReplyView;

    open spec fn view(&self) -> ReplyView {
        match *self {
            Reply::Token(token) => ReplyView::Token(token@),
            Reply::Text(text) => ReplyView::Text(text@),
            Reply::Closed => ReplyView::Closed,
            Reply::Truncated => ReplyView::Truncated,
            Reply::Failed => ReplyView::Failed,
        }
    }
}

/// Where a reader stands between text and markup (`ParseState` in `quick_xml`).
pub enum ReaderPhase {
    Init,
    InsideMarkup,
    InsideText,
    InsideEmpty,
    Done,
}

/// The settings of a reader (`Config` in `quick_xml`).
pub struct ReaderConfig {
    pub allow_unmatched_ends: bool,
    pub check_comments: bool,
    pub check_end_names: bool,
    pub expand_empty_elements: bool,
    pub trim_markup_names_in_closing_tags: bool,
    pub trim_text_start: bool,
    pub trim_text_end: bool,
}

/// The book-keeping of a reader: all of its state but the bytes that it has
/// yet to read (`ReaderState` in `quick_xml`).
pub struct ReaderBook {
    pub offset: nat,
    pub last_error_offset: nat,
    pub state: ReaderPhase,
    pub config: ReaderConfig,
    pub opened_buffer: Seq<u8>,
    pub opened_starts: Seq<nat>,
}

impl ReaderBook {
    /// The book-keeping of a reader that has read nothing, with the settings
    /// that `quick_xml` begins with.
    pub open spec fn fresh() -> ReaderBook {
        ReaderBook {
            offset: 0,
            last_error_offset: 0,
            state: ReaderPhase::Init,
            config: ReaderConfig {
                allow_unmatched_ends: false,
                check_comments: false,
                check_end_names: true,
                expand_empty_elements: false,
                trim_markup_names_in_closing_tags: true,
                trim_text_start: false,
                trim_text_end: false,
            },
            opened_buffer: Seq::empty(),
            opened_starts: Seq::empty(),
        }
    }

    /// This book-keeping with white space trimmed off both ends of every text.
    pub open spec fn trimming(self) -> ReaderBook {
        ReaderBook {
            config: ReaderConfig { trim_text_start: true, trim_text_end: true, ..self.config },
            ..self
        }
    }
}

/// A reader as a mathematical value: the bytes that it has yet to read, and
/// its book-keeping.
pub struct Cursor {
    pub unread: Seq<u8>,
    pub book: ReaderBook,
}

impl Cursor {
    /// A reader at the start of a document, set to trim its texts.
    pub open spec fn start(input: Seq<u8>) -> Cursor {
        Cursor { unread: input, book: ReaderBook::fresh().trimming() }
    }
}

/// The bytes of the document that a reader has not consumed yet.
pub uninterp spec fn unread(reader: Reader<&[u8]>) -> Seq<u8>;

/// The book-keeping of a reader.
pub uninterp spec fn book(reader: Reader<&[u8]>) -> ReaderBook;

/// A reader as a mathematical value.
pub open spec fn cursor(reader: Reader<&[u8]>) -> Cursor {
    Cursor { unread: unread(reader), book: book(reader) }
}

/// What `Reader::read_event` answers in a given state, and the state that it
/// leaves. An error is answered as `Failed`.
pub uninterp spec fn event_read(at: Cursor) -> (ReplyView, Cursor);

/// What `Reader::read_text` answers in a given state for the name of an end
/// tag, and the state that it leaves. Its error for a document that ends before
/// the end tag is answered as `Truncated`, any other error as `Failed`.
pub uninterp spec fn text_read(at: Cursor, name: Seq<u8>) -> (ReplyView, Cursor);

/// What `Reader::read_to_end` answers in a given state for the name of an end
/// tag, and the state that it leaves. Its error for a document that ends before
/// the end tag is answered as `Truncated`, any other error as `Failed`.
pub uninterp spec fn end_read(at: Cursor, name: Seq<u8>) -> (ReplyView, Cursor);

/// What `quick_xml::escape::unescape` makes of a text: the text with every
/// entity and character reference replaced, or `None` where it reports an error.
pub uninterp spec fn unescaped(raw: Seq<char>) -> Option<Seq<char>>;

/// What `BytesStart::try_get_attribute` finds in the raw attribute text of a tag:
/// `Ok(Some(value))` with the raw value of the first attribute named `key`,
/// `Ok(None)` where no attribute has that name, `Err(())` where it reports an error.
pub uninterp spec fn attribute_value(attributes: Seq<char>, key: Seq<char>) -> Result<Option<Seq<char>>, ()>;

/// `Reader::from_str`: a reader that has all of `input` to read and the
/// book-keeping that `ReaderState::default()` gives it.
#[verifier::external_body]
pub(crate) fn reader_over<'a>(input: &'a str) -> (reader: Reader<&'a [u8]>)
    ensures
        unread(reader) == input.spec_bytes(),
        book(reader) == ReaderBook::fresh(),
{
    Reader::from_str(input)
}

/// `Config::trim_text(true)` on the reader's settings: it sets `trim_text_start`
/// and `trim_text_end`, and nothing else changes.
#[verifier::external_body]
pub(crate) fn trim_text(reader: &mut Reader<&[u8]>)
    ensures
        unread(*final(reader)) == unread(*old(reader)),
        book(*final(reader)) == book(*old(reader)).trimming(),
{
    reader.config_mut().trim_text(true);
}

/// `Reader::get_ref`, then the slice's length: the number of bytes that the
/// reader has not consumed yet.
#[verifier::external_body]
pub(crate) fn unread_len(reader: &Reader<&[u8]>) -> (n: usize)
    ensures
        n == unread(*reader).len(),
{
    reader.get_ref().len()
}

/// `Reader::read_event`, the event reduced to a [`Token`]. The answer and the
/// reader's new state are a function of its state, named [`event_read`].
#[verifier::external_body]
pub(crate) fn ask_token(reader: &mut Reader<&[u8]>) -> (r: Result<Token, quick_xml::Error>)
    ensures
        match r {
            Ok(token) => event_read(cursor(*old(reader))) == (ReplyView::Token(token@), cursor(*final(reader))),
            Err(_) => event_read(cursor(*old(reader))) == (ReplyView::Failed, cursor(*final(reader))),
        },
{
    Ok(match reader.read_event()? {
        Event::Decl(_) => Token::Decl,
        Event::Start(e) => Token::Start { name: e.name().as_ref().to_vec() },
        Event::Empty(e) => Token::Empty {
            name: e.name().as_ref().to_vec(),
            attributes: String::from_utf8_lossy(e.attributes_raw()).into_owned(),
        },
        Event::End(e) => Token::End { name: e.name().as_ref().to_vec() },
        Event::Eof => Token::Eof,
        _ => Token::Other,
    })
}

/// `Reader::read_text` up to the end tag called `name`. The answer and the
/// reader's new state are a function of its state and the name, named
/// [`text_read`].
#[verifier::external_body]
pub(crate) fn ask_text(reader: &mut Reader<&[u8]>, name: &[u8]) -> (reply: Reply)
    ensures
        (reply@, cursor(*final(reader))) == text_read(cursor(*old(reader)), name@),
{
    match reader.read_text(QName(name)) {
        Ok(text) => Reply::Text(text.into_owned()),
        Err(quick_xml::Error::IllFormed(IllFormedError::MissingEndTag(_))) => Reply::Truncated,
        Err(_) => Reply::Failed,
    }
}

/// `Reader::read_to_end` up to the end tag called `name`. The answer and the
/// reader's new state are a function of its state and the name, named
/// [`end_read`].
#[verifier::external_body]
pub(crate) fn ask_end(reader: &mut Reader<&[u8]>, name: &[u8]) -> (reply: Reply)
    ensures
        (reply@, cursor(*final(reader))) == end_read(cursor(*old(reader)), name@),
{
    match reader.read_to_end(QName(name)) {
        Ok(_) => Reply::Closed,
        Err(quick_xml::Error::IllFormed(IllFormedError::MissingEndTag(_))) => Reply::Truncated,
        Err(_) => Reply::Failed,
    }
}

/// `quick_xml::escape::unescape`: the result is a function of the text alone,
/// named [`unescaped`].
#[verifier::external_body]
pub(crate) fn unescape(raw: &str) -> (r: Result<String, EscapeError>)
    ensures
        match r {
            Ok(text) => unescaped(raw@) == Some(text@),
            Err(_) => unescaped(raw@) is None,
        },
{
    quick_xml::escape::unescape(raw).map(|text| text.into_owned())
}

/// `BytesStart::try_get_attribute` on a tag made of the raw attribute text alone:
/// the result is a function of that text and the key, named [`attribute_value`].
#[verifier::external_body]
pub(crate) fn find_attribute(attributes: &str, key: &str) -> (r: Result<Option<String>, quick_xml::Error>)
    ensures
        match r {
            Ok(Some(value)) => attribute_value(attributes@, key@) == Ok::<Option<Seq<char>>, ()>(Some(value@)),
            Ok(None) => attribute_value(attributes@, key@) == Ok::<Option<Seq<char>>, ()>(None),
            Err(_) => attribute_value(attributes@, key@) is Err,
        },
{
    let tag = BytesStart::from_content(attributes, 0);
    let found = tag.try_get_attribute(key)?;
    Ok(found.map(|a| String::from_utf8_lossy(&a.value).into_owned()))
}

} // verus!
