//! Opening a document and pulling its posts: the names that the two dialects
//! give to the elements of an entry, the dialect of a document, and the parser.

use crate::error::FeedError;
use crate::machine::{
    is_pull, lemma_need_moves, lemma_pull_outcome, lemma_run_from_the_front, moves, pull, run,
    spec_moves, step, Machine, MachineView, Phase, Step, StepView,
};
use crate::xml::{
    ask_end, ask_text, ask_token, cursor, end_read, event_read, reader_over, text_read, trim_text,
    unread, unread_len, Cursor, Reply, ReplyView, Request, RequestView, Token, TokenView,
};
use crate::{Post, PostView};
use quick_xml::Reader;
use vstd::prelude::*;
use vstd::slice::slice_to_vec;
use vstd::string::StringSliceAdditionalSpecFns;

verus! {

/// The two dialects of syndication document.
#[derive(Debug, Clone, Copy, PartialEq, Eq, Structural)]
pub enum DocStyle {
    Rss,
    Atom,
}

/// What an element means to the feed grammar in a given dialect.
#[derive(Debug, Clone, Copy, PartialEq, Eq, Structural)]
pub enum TagKind {
    EntryContainer,
    Title,
    Link,
    Timestamp,
    Unrecognized,
}

/// Element names that the feed grammar knows, whatever the dialect.
#[derive(Debug, Clone, Copy, PartialEq, Eq, Structural)]
pub enum Tag {
    Item,
    Entry,
    Title,
    Link,
    PubDate,
    Updated,
    Unknown,
}

impl Tag {
    /// The element name of a known tag, as the bytes of the document.
    pub open spec fn spec_name(self) -> Option<Seq<u8>> {
        match self {
            Tag::Item => Some("item".spec_bytes()),
            Tag::Entry => Some("entry".spec_bytes()),
            Tag::Title => Some("title".spec_bytes()),
            Tag::Link => Some("link".spec_bytes()),
            Tag::PubDate => Some("pubDate".spec_bytes()),
            Tag::Updated => Some("updated".spec_bytes()),
            Tag::Unknown => None,
        }
    }

    /// The tag that an element name stands for.
    pub open spec fn spec_from(name: Seq<u8>) -> Tag {
        if name == "item".spec_bytes() {
            Tag::Item
        } else if name == "entry".spec_bytes() {
            Tag::Entry
        } else if name == "title".spec_bytes() {
            Tag::Title
        } else if name == "link".spec_bytes() {
            Tag::Link
        } else if name == "pubDate".spec_bytes() {
            Tag::PubDate
        } else if name == "updated".spec_bytes() {
            Tag::Updated
        } else {
            Tag::Unknown
        }
    }

    /// The element name of a known tag; `None` for [`Tag::Unknown`].
    pub fn name(&self) -> (r: Option<&'static [u8]>)
        ensures
            r is Some <==> self.spec_name() is Some,
            r matches Some(b) ==> b@ == self.spec_name()->0,
    {
        match self {
            Tag::Item => Some("item".as_bytes()),
            Tag::Entry => Some("entry".as_bytes()),
            Tag::Title => Some("title".as_bytes()),
            Tag::Link => Some("link".as_bytes()),
            Tag::PubDate => Some("pubDate".as_bytes()),
            Tag::Updated => Some("updated".as_bytes()),
            Tag::Unknown => None,
        }
    }

    /// What a tag means in a dialect. RSS has `item` and `pubDate`, Atom has
    /// `entry` and `updated`; `title` and `link` belong to both.
    pub open spec fn spec_kind(self, style: DocStyle) -> TagKind {
        match (style, self) {
            (DocStyle::Rss, Tag::Item) => TagKind::EntryContainer,
            (DocStyle::Rss, Tag::PubDate) => TagKind::Timestamp,
            (DocStyle::Atom, Tag::Entry) => TagKind::EntryContainer,
            (DocStyle::Atom, Tag::Updated) => TagKind::Timestamp,
            (_, Tag::Title) => TagKind::Title,
            (_, Tag::Link) => TagKind::Link,
            _ => TagKind::Unrecognized,
        }
    }

    /// What the tag means in a dialect.
    pub fn kind(&self, style: DocStyle) -> (kind: TagKind)
        ensures
            kind == self.spec_kind(style),
    {
        match (style, self) {
            (DocStyle::Rss, Tag::Item) => TagKind::EntryContainer,
            (DocStyle::Rss, Tag::PubDate) => TagKind::Timestamp,
            (DocStyle::Atom, Tag::Entry) => TagKind::EntryContainer,
            (DocStyle::Atom, Tag::Updated) => TagKind::Timestamp,
            (_, Tag::Title) => TagKind::Title,
            (_, Tag::Link) => TagKind::Link,
            _ => TagKind::Unrecognized,
        }
    }

}

impl<'a> From<&'a [u8]> for Tag {
    /// The tag that an element name stands for.
    fn from(value: &'a [u8]) -> (tag: Tag) {
        if same_bytes(value, "item".as_bytes()) {
            Tag::Item
        } else if same_bytes(value, "entry".as_bytes()) {
            Tag::Entry
        } else if same_bytes(value, "title".as_bytes()) {
            Tag::Title
        } else if same_bytes(value, "link".as_bytes()) {
            Tag::Link
        } else if same_bytes(value, "pubDate".as_bytes()) {
            Tag::PubDate
        } else if same_bytes(value, "updated".as_bytes()) {
            Tag::Updated
        } else {
            Tag::Unknown
        }
    }
}

impl<'a> vstd::std_specs::convert::FromSpecImpl<&'a [u8]> for Tag {
    open spec fn obeys_from_spec() -> bool {
        true
    }

    open spec fn from_spec(value: &'a [u8]) -> Tag {
        Tag::spec_from(value@)
    }
}

/// What the element called `name` means in a dialect.
pub open spec fn spec_classify(style: DocStyle, name: Seq<u8>) -> TagKind {
    Tag::spec_from(name).spec_kind(style)
}

/// What the element called `name` means in a dialect.
pub fn classify(style: DocStyle, name: &[u8]) -> (kind: TagKind)
    ensures
        kind == spec_classify(style, name@),
{
    Tag::from(name).kind(style)
}

impl DocStyle {
    /// The dialect that a root element's name announces.
    pub open spec fn spec_of_root(name: Seq<u8>) -> Option<DocStyle> {
        if name == "rss".spec_bytes() {
            Some(DocStyle::Rss)
        } else if name == "feed".spec_bytes() {
            Some(DocStyle::Atom)
        } else {
            None
        }
    }

    /// The dialect that a root element's name announces.
    pub fn of_root(name: &[u8]) -> (style: Option<DocStyle>)
        ensures
            style == DocStyle::spec_of_root(name@),
    {
        if same_bytes(name, "rss".as_bytes()) {
            Some(DocStyle::Rss)
        } else if same_bytes(name, "feed".as_bytes()) {
            Some(DocStyle::Atom)
        } else {
            None
        }
    }

    /// The tag of the element that holds one post.
    pub open spec fn spec_entry_tag(self) -> Tag {
        match self {
            DocStyle::Rss => Tag::Item,
            DocStyle::Atom => Tag::Entry,
        }
    }

    /// The tag of the element that holds one post.
    pub fn entry_tag(&self) -> (tag: Tag)
        ensures
            tag == self.spec_entry_tag(),
    {
        match self {
            DocStyle::Rss => Tag::Item,
            DocStyle::Atom => Tag::Entry,
        }
    }

    /// The name of the element that holds one post.
    pub open spec fn spec_entry_name(self) -> Seq<u8> {
        self.spec_entry_tag().spec_name()->0
    }

    /// The name of the element that holds one post.
    pub fn entry_name(&self) -> (name: Vec<u8>)
        ensures
            name@ == self.spec_entry_name(),
    {
        slice_to_vec(self.entry_tag().name().unwrap())
    }
}

/// The dialect of a document, from the token that should open its root element.
pub open spec fn spec_detect(root: TokenView) -> Result<DocStyle, FeedError> {
    match root {
        TokenView::Start { name } => match DocStyle::spec_of_root(name) {
            Some(style) => Ok(style),
            None => Err(FeedError::MalformedDocument),
        },
        _ => Err(FeedError::MalformedDocument),
    }
}

/// The dialect of a document, from the token that should open its root element:
/// `rss` opens an RSS document and `feed` an Atom one; any other token, and any
/// other name, is refused.
pub fn detect(root: &Token) -> (r: Result<DocStyle, FeedError>)
    ensures
        r == spec_detect(root@),
{
    match root {
        Token::Start { name } => match DocStyle::of_root(name.as_slice()) {
            Some(style) => Ok(style),
            None => Err(FeedError::MalformedDocument),
        },
        _ => Err(FeedError::MalformedDocument),
    }
}

/// The answer of a reader to a request, and the state that it is left in. An
/// answer that claims to have gone forward in the document although no byte
/// was consumed counts as a failure.
pub open spec fn answer(at: Cursor, request: RequestView) -> (ReplyView, Cursor) {
    let (reply, after) = match request {
        RequestView::Token => event_read(at),
        RequestView::Text { name } => text_read(at, name),
        RequestView::End { name } => end_read(at, name),
    };
    if spec_moves(reply) && after.unread.len() >= at.unread.len() {
        (ReplyView::Failed, after)
    } else {
        (reply, after)
    }
}

/// One pull: the request is put to the reader and the answer to the machine,
/// again and again until the machine has a post, the end, or a failure.
pub open spec fn drive(at: Cursor, m: MachineView, request: RequestView) -> (Cursor, MachineView, StepView)
    decreases at.unread.len(),
{
    let (reply, after) = answer(at, request);
    let (moved, out) = step(m, reply);
    match out {
        StepView::Need(next) => {
            proof {
                lemma_need_moves(m, reply);
            }
            drive(after, moved, next)
        },
        _ => (after, moved, out),
    }
}

/// The answers that the reader gives in the course of one pull, in order.
pub open spec fn answers(at: Cursor, m: MachineView, request: RequestView) -> Seq<ReplyView>
    decreases at.unread.len(),
{
    let (reply, after) = answer(at, request);
    let (moved, out) = step(m, reply);
    match out {
        StepView::Need(next) => {
            proof {
                lemma_need_moves(m, reply);
            }
            seq![reply] + answers(after, moved, next)
        },
        _ => seq![reply],
    }
}

/// What the parser does in one call is one pull of its machine on the answers
/// of its reader: every answer but the last makes the machine ask for more,
/// and the last one brings the state and the step that the call ends with.
pub proof fn lemma_drive_is_pull(at: Cursor, m: MachineView, request: RequestView)
    requires
        m.phase != Phase::Exhausted,
    ensures
        is_pull(m, answers(at, m, request)),
        pull(m, answers(at, m, request)) == (drive(at, m, request).1, drive(at, m, request).2),
    decreases at.unread.len(),
{
    let (reply, after) = answer(at, request);
    let (moved, out) = step(m, reply);
    match out {
        StepView::Need(next) => {
            lemma_need_moves(m, reply);
            lemma_drive_is_pull(after, moved, next);
            let rest = answers(after, moved, next);
            lemma_run_from_the_front(m, reply, rest);
            lemma_run_from_the_front(m, reply, rest.drop_last());
            assert((seq![reply] + rest).drop_last() =~= seq![reply] + rest.drop_last());
        },
        _ => {
            let only = seq![reply];
            assert(only.drop_last() =~= Seq::<ReplyView>::empty());
            assert(run(m, only.drop_last()) == m);
        },
    }
}

/// What a caller knows after a call for the next post. The dialect and the
/// author never change. A post carries the author, and the parser then looks
/// for the next entry. After the end of the document, and after an error, the
/// parser is exhausted, and an exhausted parser stays as it is: every later
/// call has no post and no error.
pub proof fn lemma_next_item_outcome(p: ParserView)
    ensures
        spec_next_item(p).0.machine.style == p.machine.style,
        spec_next_item(p).0.machine.author == p.machine.author,
        spec_next_item(p).1 matches Ok(Some(post)) ==> {
            &&& post.author == p.machine.author
            &&& spec_next_item(p).0.machine.phase == Phase::SeekingNextEntry
        },
        !(spec_next_item(p).1 matches Ok(Some(_))) ==> spec_next_item(p).0.machine.phase
            == Phase::Exhausted,
        p.machine.phase == Phase::Exhausted ==> spec_next_item(p) == (
            p,
            Ok::<Option<PostView>, FeedError>(None),
        ),
{
    if p.machine.phase != Phase::Exhausted {
        lemma_drive_is_pull(p.cursor, p.machine, RequestView::Token);
        lemma_pull_outcome(p.machine, answers(p.cursor, p.machine, RequestView::Token));
    }
}

/// A document whose first token after the declaration is anything but the
/// start tag of `rss` or of `feed` is refused as malformed.
pub proof fn lemma_other_root_is_refused(root: TokenView, after: Cursor, author: Seq<char>)
    requires
        !(root matches TokenView::Start { name } && (name == "rss".spec_bytes() || name
            == "feed".spec_bytes())),
    ensures
        spec_open_root(ReplyView::Token(root), after, author) == Err::<ParserView, FeedError>(
            FeedError::MalformedDocument,
        ),
{
}

/// A parser as a mathematical value: the state of its reader and the state of
/// its machine.
pub struct ParserView {
    pub cursor: Cursor,
    pub machine: MachineView,
}

/// What a call of [`Parser::next_item`] returns for the step that ended it.
pub open spec fn spec_item(out: StepView) -> Result<Option<PostView>, FeedError> {
    match out {
        StepView::Yield(post) => Ok(Some(post)),
        StepView::Failed(error) => Err(error),
        _ => Ok(None),
    }
}

/// What a call for the next post does to a parser and what it returns. An
/// exhausted parser stays as it is and has no post. Any other parser makes
/// one pull, which begins with the request for a token.
pub open spec fn spec_next_item(p: ParserView) -> (ParserView, Result<Option<PostView>, FeedError>) {
    if p.machine.phase == Phase::Exhausted {
        (p, Ok(None))
    } else {
        let (cursor, machine, out) = drive(p.cursor, p.machine, RequestView::Token);
        (ParserView { cursor, machine }, spec_item(out))
    }
}

/// What the token that should open the root element decides: a parser for the
/// dialect that it announces, or the error.
pub open spec fn spec_open_root(root: ReplyView, after: Cursor, author: Seq<char>) -> Result<
    ParserView,
    FeedError,
> {
    match root {
        ReplyView::Token(token) => match spec_detect(token) {
            Ok(style) => Ok(ParserView { cursor: after, machine: MachineView::start(style, author) }),
            Err(error) => Err(error),
        },
        _ => Err(FeedError::Syntax),
    }
}

/// What opening a document gives. The first token is read; if it is a
/// declaration, one more is read. That token has to open the root element.
pub open spec fn spec_open(input: Seq<u8>, author: Seq<char>) -> Result<ParserView, FeedError> {
    let (first, after_first) = event_read(Cursor::start(input));
    if first == ReplyView::Token(TokenView::Decl) {
        let (second, after_second) = event_read(after_first);
        spec_open_root(second, after_second, author)
    } else {
        spec_open_root(first, after_first, author)
    }
}

/// The value of the result of [`Parser::next_item`].
pub open spec fn item_view(r: Result<Option<Post>, FeedError>) -> Result<Option<PostView>, FeedError> {
    match r {
        Ok(Some(post)) => Ok(Some(post@)),
        Ok(None) => Ok(None),
        Err(error) => Err(error),
    }
}

/// The value of the result of [`Parser::next`].
pub open spec fn next_view(r: Option<Result<Post, FeedError>>) -> Result<Option<PostView>, FeedError> {
    match r {
        Some(Ok(post)) => Ok(Some(post@)),
        Some(Err(error)) => Err(error),
        None => Ok(None),
    }
}

/// The posts of one document, one by one.
///
/// The parser owns a reader over the document and a [`Machine`]. It asks the
/// reader what the machine needs and hands the machine what was answered.
pub struct Parser<'a, 'b> {
    reader: Reader<&'a [u8]>,
    machine: Machine<'b>,
}

impl<'a, 'b> View for Parser<'a, 'b> {
    type V = ParserView;

    closed spec fn view(&self) -> ParserView {
        ParserView { cursor: cursor(self.reader), machine: self.machine@ }
    }
}

/// Puts one request to the reader.
fn ask(reader: &mut Reader<&[u8]>, request: &Request) -> (reply: Reply)
    ensures
        (reply@, cursor(*final(reader))) == answer(cursor(*old(reader)), request@),
{
    let before = unread_len(reader);
    let reply = match request {
        Request::Token => match ask_token(reader) {
            Ok(token) => Reply::Token(token),
            Err(_) => Reply::Failed,
        },
        Request::Text { name } => ask_text(reader, name.as_slice()),
        Request::End { name } => ask_end(reader, name.as_slice()),
    };
    if moves(&reply) && unread_len(reader) >= before {
        Reply::Failed
    } else {
        reply
    }
}

impl<'a, 'b> Parser<'a, 'b> {
    /// Opens a document: reads the declaration, if there is one, and the start
    /// tag of the root element, which tells the dialect.
    ///
    /// The parser that comes back stands before the first entry and puts its
    /// posts down to `author`. A root element that is neither `rss` nor `feed`,
    /// and any other token in its place, gives `MalformedDocument`; an error of
    /// the tokenizer gives `Syntax`.
    pub fn new(input: &'a str, author: &'b str) -> (r: Result<Parser<'a, 'b>, FeedError>)
        ensures
            match r {
                Ok(parser) => spec_open(input.spec_bytes(), author@) == Ok::<ParserView, FeedError>(
                    parser@,
                ),
                Err(error) => spec_open(input.spec_bytes(), author@) == Err::<ParserView, FeedError>(
                    error,
                ),
            },
            r matches Ok(parser) ==> {
                &&& parser@.machine.phase == Phase::BeforeFirstEntry
                &&& parser@.machine.author == author@
            },
            r matches Err(error) ==> error == FeedError::MalformedDocument || error
                == FeedError::Syntax,
    {
        let mut reader = reader_over(input);
        trim_text(&mut reader);
        let first = ask_token(&mut reader);
        let root = match first {
            Ok(Token::Decl) => ask_token(&mut reader),
            other => other,
        };
        match root {
            Ok(token) => match detect(&token) {
                Ok(style) => Ok(Parser { reader, machine: Machine::new(style, author) }),
                Err(error) => Err(error),
            },
            Err(_) => Err(FeedError::Syntax),
        }
    }

    /// The dialect of the document.
    pub fn style(&self) -> (style: DocStyle)
        ensures
            style == self@.machine.style,
    {
        self.machine.style()
    }

    /// Whether the parser has nothing more to give.
    pub fn is_exhausted(&self) -> (exhausted: bool)
        ensures
            exhausted == (self@.machine.phase == Phase::Exhausted),
    {
        self.machine.is_exhausted()
    }

    /// Reads on until the next post is complete, the document holds no more, or
    /// the parse fails. What comes back, and what becomes of the parser, depends
    /// on nothing but the parser itself.
    pub fn next_item(&mut self) -> (r: Result<Option<Post>, FeedError>)
        ensures
            (final(self)@, item_view(r)) == spec_next_item(old(self)@),
    {
        if self.machine.is_exhausted() {
            return Ok(None);
        }
        let mut request = Request::Token;
        loop
            invariant
                old(self)@.machine.phase != Phase::Exhausted,
                drive(cursor(self.reader), self.machine@, request@) == drive(
                    old(self)@.cursor,
                    old(self)@.machine,
                    RequestView::Token,
                ),
            decreases unread(self.reader).len(),
        {
            let reply = ask(&mut self.reader, &request);
            let ghost before = self.machine@;
            let ghost said = reply@;
            match self.machine.feed(reply) {
                Step::Need(next) => {
                    proof {
                        lemma_need_moves(before, said);
                    }
                    request = next;
                },
                Step::Yield(post) => {
                    return Ok(Some(post));
                },
                Step::Finished => {
                    return Ok(None);
                },
                Step::Failed(error) => {
                    return Err(error);
                },
            }
        }
    }

    /// The next post, as an iterator would hand it out: `None` once the
    /// document holds no more, and an error at most once.
    pub fn next(&mut self) -> (r: Option<Result<Post, FeedError>>)
        ensures
            (final(self)@, next_view(r)) == spec_next_item(old(self)@),
    {
        match self.next_item() {
            Ok(Some(post)) => Some(Ok(post)),
            Ok(None) => None,
            Err(error) => Some(Err(error)),
        }
    }
}

/// Whether two byte strings hold the same bytes.
pub fn same_bytes(a: &[u8], b: &[u8]) -> (same: bool)
    ensures
        same == (a@ == b@),
{
    if a.len() != b.len() {
        return false;
    }
    let mut i: usize = 0;
    while i < a.len()
        invariant
            a.len() == b.len(),
            i <= a.len(),
            forall|j: int| 0 <= j < i ==> a@[j] == b@[j],
        decreases a.len() - i,
    {
        if a[i] != b[i] {
            return false;
        }
        i += 1;
    }
    assert(a@ =~= b@);
    true
}

/// The bytes of the names of the six elements that the grammar knows.
pub proof fn lemma_tag_names()
    ensures
        "item".spec_bytes() == seq![0x69u8, 0x74, 0x65, 0x6d],
        "entry".spec_bytes() == seq![0x65u8, 0x6e, 0x74, 0x72, 0x79],
        "title".spec_bytes() == seq![0x74u8, 0x69, 0x74, 0x6c, 0x65],
        "link".spec_bytes() == seq![0x6cu8, 0x69, 0x6e, 0x6b],
        "pubDate".spec_bytes() == seq![0x70u8, 0x75, 0x62, 0x44, 0x61, 0x74, 0x65],
        "updated".spec_bytes() == seq![0x75u8, 0x70, 0x64, 0x61, 0x74, 0x65, 0x64],
{
    broadcast use vstd::string::is_ascii_spec_bytes;
    reveal_strlit("item");
    reveal_strlit("entry");
    reveal_strlit("title");
    reveal_strlit("link");
    reveal_strlit("pubDate");
    reveal_strlit("updated");
    assert(vstd::string::is_ascii("item"));
    assert(vstd::string::is_ascii("entry"));
    assert(vstd::string::is_ascii("title"));
    assert(vstd::string::is_ascii("link"));
    assert(vstd::string::is_ascii("pubDate"));
    assert(vstd::string::is_ascii("updated"));
    assert("item".spec_bytes() =~= seq![0x69u8, 0x74, 0x65, 0x6d]);
    assert("entry".spec_bytes() =~= seq![0x65u8, 0x6e, 0x74, 0x72, 0x79]);
    assert("title".spec_bytes() =~= seq![0x74u8, 0x69, 0x74, 0x6c, 0x65]);
    assert("link".spec_bytes() =~= seq![0x6cu8, 0x69, 0x6e, 0x6b]);
    assert("pubDate".spec_bytes() =~= seq![0x70u8, 0x75, 0x62, 0x44, 0x61, 0x74, 0x65]);
    assert("updated".spec_bytes() =~= seq![0x75u8, 0x70, 0x64, 0x61, 0x74, 0x65, 0x64]);
}

} // verus!
