//! The feed grammar as a state machine. It never touches the document: it is
//! told what the tokenizer answered and says what to ask next, so that every
//! decision of a parse is a function of the answers alone.

use crate::date::{instant_of, normalize_date, Timestamp};
use crate::error::FeedError;
use crate::parse::{classify, spec_classify, DocStyle, TagKind};
use crate::text::{element_text, read_element_text};
use crate::xml::{
    attribute_value, find_attribute, unescape, unescaped, Reply, ReplyView, Request, RequestView,
    Token, TokenView,
};
use crate::{Post, PostView};
use vstd::prelude::*;
use vstd::string::StringSliceAdditionalSpecFns;

verus! {

/// Where a parse stands between two tokens.
#[derive(Debug, Clone, Copy, PartialEq, Eq, Structural)]
pub enum Phase {
    /// The dialect is known and no entry has been opened yet.
    BeforeFirstEntry,
    /// A post was handed out; the next entry is looked for.
    SeekingNextEntry,
    /// An entry is open and its fields are being collected.
    InsideEntry,
    /// Nothing more will come. This phase is never left.
    Exhausted,
}

/// One of the three things that a post takes from the document.
#[derive(Debug, Clone, Copy, PartialEq, Eq, Structural)]
pub enum Field {
    Title,
    Link,
    Date,
}

/// What the machine is waiting for.
#[derive(Debug, Clone, Copy, PartialEq, Eq, Structural)]
pub enum Pending {
    /// The next token.
    Token,
    /// The text of the element that was just opened, for the given field.
    Text(Field),
    /// The end of an element: of a child that the grammar does not know or,
    /// once the three fields are there, of the entry.
    End,
}

/// What the machine does with an answer.
#[derive(Debug, Clone, PartialEq, Eq)]
pub enum Step {
    /// It needs more: ask the tokenizer this.
    Need(Request),
    /// An entry is complete: here is its post.
    Yield(Post),
    /// The document holds no further post.
    Finished,
    /// The parse failed.
    Failed(FeedError),
}

/// A [`Step`] as a mathematical value.
pub enum StepView {
    Need(RequestView),
    Yield(PostView),
    Finished,
    Failed(FeedError),
}

impl View for Step {
    type V = StepView;

    open spec fn view(&self) -> StepView {
        match *self {
            Step::Need(request) => StepView::Need(request@),
            Step::Yield(post) => StepView::Yield(post@),
            Step::Finished => StepView::Finished,
            Step::Failed(error) => StepView::Failed(error),
        }
    }
}

/// The fields of the entry that is open, as far as they were found.
pub struct FieldsView {
    pub link: Option<Seq<char>>,
    pub title: Option<Seq<char>>,
    pub date: Option<Timestamp>,
}

impl FieldsView {
    /// No field found yet.
    pub open spec fn none() -> FieldsView {
        FieldsView { link: None, title: None, date: None }
    }

    /// Whether the three fields are there.
    pub open spec fn complete(self) -> bool {
        self.link is Some && self.title is Some && self.date is Some
    }
}

/// The state of a parse as a mathematical value.
pub struct MachineView {
    pub style: DocStyle,
    pub author: Seq<char>,
    pub phase: Phase,
    pub pending: Pending,
    pub fields: FieldsView,
}

impl MachineView {
    /// The state in which a parse begins, once the dialect is known.
    pub open spec fn start(style: DocStyle, author: Seq<char>) -> MachineView {
        MachineView {
            style,
            author,
            phase: Phase::BeforeFirstEntry,
            pending: Pending::Token,
            fields: FieldsView::none(),
        }
    }

    /// This state with the parse given up: whatever was collected is dropped.
    pub open spec fn exhausted(self) -> MachineView {
        MachineView {
            phase: Phase::Exhausted,
            pending: Pending::Token,
            fields: FieldsView::none(),
            ..self
        }
    }

    /// The post of the open entry. Meant for a state whose fields are complete.
    pub open spec fn post(self) -> PostView {
        PostView {
            link: self.fields.link->0,
            title: self.fields.title->0,
            date: self.fields.date->0,
            author: self.author,
        }
    }

    /// What follows once a field was stored: with the three fields there, the
    /// rest of the entry is skipped; otherwise the next child is read.
    pub open spec fn after_capture(self) -> (MachineView, StepView) {
        if self.fields.complete() {
            (
                MachineView { pending: Pending::End, ..self },
                StepView::Need(RequestView::End { name: self.style.spec_entry_name() }),
            )
        } else {
            (MachineView { pending: Pending::Token, ..self }, StepView::Need(RequestView::Token))
        }
    }

    /// This state with a text stored as the link or as the title.
    pub open spec fn with_text(self, field: Field, text: Seq<char>) -> MachineView {
        match field {
            Field::Link => MachineView { fields: FieldsView { link: Some(text), ..self.fields }, ..self },
            Field::Title => MachineView { fields: FieldsView { title: Some(text), ..self.fields }, ..self },
            Field::Date => self,
        }
    }

    /// This state with an instant stored as the date.
    pub open spec fn with_date(self, at: Timestamp) -> MachineView {
        MachineView { fields: FieldsView { date: Some(at), ..self.fields }, ..self }
    }

    /// The parse has failed: the state is exhausted and the error is reported.
    pub open spec fn fail(self, error: FeedError) -> (MachineView, StepView) {
        (self.exhausted(), StepView::Failed(error))
    }

    /// The parse ends without an error: the state is exhausted.
    pub open spec fn finish(self) -> (MachineView, StepView) {
        (self.exhausted(), StepView::Finished)
    }
}

/// The field that an element of the given kind fills, if it fills one.
pub open spec fn spec_field_of(kind: TagKind) -> Option<Field> {
    match kind {
        TagKind::Title => Some(Field::Title),
        TagKind::Link => Some(Field::Link),
        TagKind::Timestamp => Some(Field::Date),
        _ => None,
    }
}

/// A token while an entry is looked for: the start tag of an entry opens it,
/// the end of the document ends the parse, and everything else is passed over.
pub open spec fn on_seek_token(m: MachineView, token: TokenView) -> (MachineView, StepView) {
    match token {
        TokenView::Eof => m.finish(),
        TokenView::Start { name } if spec_classify(m.style, name) == TagKind::EntryContainer => (
            MachineView { phase: Phase::InsideEntry, pending: Pending::Token, fields: FieldsView::none(), ..m },
            StepView::Need(RequestView::Token),
        ),
        _ => (m, StepView::Need(RequestView::Token)),
    }
}

/// A start tag inside an entry: a known child has its text read, an unknown
/// one is skipped with all it holds, and an entry inside an entry is refused.
pub open spec fn on_child_start(m: MachineView, name: Seq<u8>) -> (MachineView, StepView) {
    match spec_classify(m.style, name) {
        TagKind::EntryContainer => m.fail(FeedError::UnexpectedToken),
        TagKind::Unrecognized => (
            MachineView { pending: Pending::End, ..m },
            StepView::Need(RequestView::End { name }),
        ),
        kind => (
            MachineView { pending: Pending::Text(spec_field_of(kind)->0), ..m },
            StepView::Need(RequestView::Text { name }),
        ),
    }
}

/// The link that an Atom `<link .../>` carries in its `href` attribute.
pub open spec fn on_empty_link(m: MachineView, attributes: Seq<char>) -> (MachineView, StepView) {
    match attribute_value(attributes, "href"@) {
        Err(_) => m.fail(FeedError::Syntax),
        Ok(None) => m.fail(FeedError::MissingHref),
        Ok(Some(raw)) => match unescaped(raw) {
            None => m.fail(FeedError::Syntax),
            Some(link) => m.with_text(Field::Link, link).after_capture(),
        },
    }
}

/// An element without content inside an entry: Atom's link gives its `href`,
/// an unknown element is passed over, and any other is refused.
pub open spec fn on_child_empty(m: MachineView, name: Seq<u8>, attributes: Seq<char>) -> (
    MachineView,
    StepView,
) {
    match spec_classify(m.style, name) {
        TagKind::Unrecognized => (m, StepView::Need(RequestView::Token)),
        TagKind::Link if m.style == DocStyle::Atom => on_empty_link(m, attributes),
        _ => m.fail(FeedError::UnexpectedToken),
    }
}

/// A token inside an entry.
pub open spec fn on_entry_token(m: MachineView, token: TokenView) -> (MachineView, StepView) {
    match token {
        TokenView::Eof => m.finish(),
        TokenView::End { .. } => m.finish(),
        TokenView::Start { name } => on_child_start(m, name),
        TokenView::Empty { name, attributes } => on_child_empty(m, name, attributes),
        _ => m.fail(FeedError::UnexpectedToken),
    }
}

/// The raw text of a child element: it is freed of its CDATA wrapper or
/// unescaped, and stored; a date is first read in one of its two grammars.
pub open spec fn on_text(m: MachineView, field: Field, raw: Seq<char>) -> (MachineView, StepView) {
    match element_text(raw) {
        None => m.fail(FeedError::Syntax),
        Some(text) => match field {
            Field::Date => match instant_of(text) {
                None => m.fail(FeedError::InvalidDate),
                Some(at) => m.with_date(at).after_capture(),
            },
            _ => m.with_text(field, text).after_capture(),
        },
    }
}

/// An end tag was passed. With the three fields there it was the entry's own,
/// and the post is handed out; otherwise a child was skipped.
pub open spec fn on_closed(m: MachineView) -> (MachineView, StepView) {
    if m.fields.complete() {
        (
            MachineView {
                phase: Phase::SeekingNextEntry,
                pending: Pending::Token,
                fields: FieldsView::none(),
                ..m
            },
            StepView::Yield(m.post()),
        )
    } else {
        (MachineView { pending: Pending::Token, ..m }, StepView::Need(RequestView::Token))
    }
}

/// The grammar: the state and the step that follow from a state and an answer.
///
/// An exhausted machine stays as it is. A failure of the tokenizer fails the
/// parse, and so does an answer to a question that was not asked. The end of
/// the document inside an entry ends the parse without an error.
pub open spec fn step(m: MachineView, reply: ReplyView) -> (MachineView, StepView) {
    if m.phase == Phase::Exhausted {
        (m, StepView::Finished)
    } else {
        match (m.pending, reply) {
            (_, ReplyView::Failed) => m.fail(FeedError::Syntax),
            (Pending::Token, ReplyView::Token(token)) => if m.phase == Phase::InsideEntry {
                on_entry_token(m, token)
            } else {
                on_seek_token(m, token)
            },
            (Pending::Text(field), ReplyView::Text(raw)) => on_text(m, field, raw),
            (Pending::Text(_), ReplyView::Truncated) => m.finish(),
            (Pending::End, ReplyView::Closed) => on_closed(m),
            (Pending::End, ReplyView::Truncated) => m.finish(),
            _ => m.fail(FeedError::Syntax),
        }
    }
}

/// The state that a run of answers leads to.
pub open spec fn run(m: MachineView, replies: Seq<ReplyView>) -> MachineView
    decreases replies.len(),
{
    if replies.len() == 0 {
        m
    } else {
        step(run(m, replies.drop_last()), replies.last()).0
    }
}

/// Whether every answer of a run made the machine ask for more.
pub open spec fn quiet(m: MachineView, replies: Seq<ReplyView>) -> bool
    decreases replies.len(),
{
    replies.len() == 0 || (quiet(m, replies.drop_last()) && step(
        run(m, replies.drop_last()),
        replies.last(),
    ).1 is Need)
}

/// The state and the step that a run of answers ends in.
pub open spec fn pull(m: MachineView, replies: Seq<ReplyView>) -> (MachineView, StepView) {
    step(run(m, replies.drop_last()), replies.last())
}

/// Whether a run of answers is one pull: every answer but the last made the
/// machine ask for more, and the last one brought a post, the end, or a failure.
pub open spec fn is_pull(m: MachineView, replies: Seq<ReplyView>) -> bool {
    &&& replies.len() > 0
    &&& quiet(m, replies.drop_last())
    &&& !(pull(m, replies).1 is Need)
}

/// Whether an answer reports that the tokenizer went forward in the document.
pub open spec fn spec_moves(reply: ReplyView) -> bool {
    match reply {
        ReplyView::Token(TokenView::Eof) => false,
        ReplyView::Token(_) => true,
        ReplyView::Text(_) => true,
        ReplyView::Closed => true,
        _ => false,
    }
}

/// Whether an answer reports that the tokenizer went forward in the document.
pub fn moves(reply: &Reply) -> (forward: bool)
    ensures
        forward == spec_moves(reply@),
{
    match reply {
        Reply::Token(Token::Eof) => false,
        Reply::Token(_) => true,
        Reply::Text(_) => true,
        Reply::Closed => true,
        _ => false,
    }
}

/// The machine asks for more only after an answer that went forward.
pub proof fn lemma_need_moves(m: MachineView, reply: ReplyView)
    requires
        step(m, reply).1 is Need,
    ensures
        spec_moves(reply),
{
}

/// An exhausted machine is never left: whatever it is told, it stays as it is
/// and reports the end, without an error.
pub proof fn lemma_exhausted_is_terminal(m: MachineView, replies: Seq<ReplyView>)
    requires
        m.phase == Phase::Exhausted,
    ensures
        run(m, replies) == m,
        replies.len() > 0 ==> pull(m, replies) == (m, StepView::Finished),
    decreases replies.len(),
{
    if replies.len() > 0 {
        lemma_exhausted_is_terminal(m, replies.drop_last());
    }
}

/// One step keeps the dialect and the author, and leaves a machine that waits
/// for a token with no field in hand whenever it does not ask for more: after a
/// post the next entry is looked for, after the end or a failure the machine is
/// exhausted. A post that is handed out carries the author.
pub proof fn lemma_step_outcome(m: MachineView, reply: ReplyView)
    ensures
        step(m, reply).0.style == m.style,
        step(m, reply).0.author == m.author,
        step(m, reply).1 matches StepView::Yield(post) ==> {
            &&& step(m, reply).0.phase == Phase::SeekingNextEntry
            &&& step(m, reply).0.pending == Pending::Token
            &&& step(m, reply).0.fields == FieldsView::none()
            &&& m.fields.complete()
            &&& post == m.post()
            &&& post.author == m.author
        },
        step(m, reply).1 is Finished ==> step(m, reply).0.phase == Phase::Exhausted,
        step(m, reply).1 is Failed ==> step(m, reply).0 == m.exhausted(),
        step(m, reply).1 is Finished && m.phase != Phase::Exhausted ==> step(m, reply).0 == m.exhausted(),
{
}

/// A run of answers is its first answer and then the rest.
pub proof fn lemma_run_from_the_front(m: MachineView, first: ReplyView, rest: Seq<ReplyView>)
    ensures
        run(m, seq![first] + rest) == run(step(m, first).0, rest),
        quiet(m, seq![first] + rest) == (step(m, first).1 is Need && quiet(step(m, first).0, rest)),
        rest.len() > 0 ==> pull(m, seq![first] + rest) == pull(step(m, first).0, rest),
    decreases rest.len(),
{
    let all = seq![first] + rest;
    let moved = step(m, first).0;
    if rest.len() == 0 {
        assert(all.drop_last() =~= Seq::<ReplyView>::empty());
        assert(all.last() == first);
        assert(run(m, all.drop_last()) == m);
        assert(quiet(m, all.drop_last()));
        assert(quiet(moved, rest));
    } else {
        assert(all.drop_last() =~= seq![first] + rest.drop_last());
        assert(all.last() == rest.last());
        lemma_run_from_the_front(m, first, rest.drop_last());
        assert(quiet(m, all) == (quiet(m, all.drop_last()) && step(
            run(m, all.drop_last()),
            all.last(),
        ).1 is Need));
        assert(quiet(moved, rest) == (quiet(moved, rest.drop_last()) && step(
            run(moved, rest.drop_last()),
            rest.last(),
        ).1 is Need));
    }
}

/// A run of answers keeps the dialect and the author.
pub proof fn lemma_run_keeps_source(m: MachineView, replies: Seq<ReplyView>)
    ensures
        run(m, replies).style == m.style,
        run(m, replies).author == m.author,
    decreases replies.len(),
{
    if replies.len() > 0 {
        lemma_run_keeps_source(m, replies.drop_last());
        lemma_step_outcome(run(m, replies.drop_last()), replies.last());
    }
}

/// What a pull leaves behind. The dialect and the author are as before. After
/// a post, the post carries the author and the machine looks for the next
/// entry; after the end or a failure it is exhausted.
pub proof fn lemma_pull_outcome(m: MachineView, replies: Seq<ReplyView>)
    requires
        is_pull(m, replies),
    ensures
        pull(m, replies).0.style == m.style,
        pull(m, replies).0.author == m.author,
        pull(m, replies).1 matches StepView::Yield(post) ==> {
            &&& post.author == m.author
            &&& pull(m, replies).0.phase == Phase::SeekingNextEntry
        },
        !(pull(m, replies).1 is Yield) ==> pull(m, replies).0.phase == Phase::Exhausted,
{
    lemma_run_keeps_source(m, replies.drop_last());
    lemma_step_outcome(run(m, replies.drop_last()), replies.last());
}

/// The end of the document inside an entry ends the parse without an error and
/// without a post, whether it comes as a token or cuts an element short.
pub proof fn lemma_document_end_inside_entry(m: MachineView, reply: ReplyView)
    requires
        m.phase == Phase::InsideEntry,
        reply == ReplyView::Token(TokenView::Eof) && m.pending == Pending::Token || reply
            == ReplyView::Truncated && m.pending != Pending::Token,
    ensures
        step(m, reply) == (m.exhausted(), StepView::Finished),
{
}

/// An entry that closes before its three fields are there ends the parse
/// without an error and without a post.
pub proof fn lemma_entry_closed_early(m: MachineView, name: Seq<u8>)
    requires
        m.phase == Phase::InsideEntry,
        m.pending == Pending::Token,
    ensures
        step(m, ReplyView::Token(TokenView::End { name })) == (m.exhausted(), StepView::Finished),
{
}

/// A failure of the tokenizer fails the parse, wherever it stands.
pub proof fn lemma_failure_is_fatal(m: MachineView)
    requires
        m.phase != Phase::Exhausted,
    ensures
        step(m, ReplyView::Failed) == (m.exhausted(), StepView::Failed(FeedError::Syntax)),
{
}

/// A date that is written in neither grammar fails the parse.
pub proof fn lemma_unreadable_date_is_fatal(m: MachineView, raw: Seq<char>)
    requires
        m.phase != Phase::Exhausted,
        m.pending == Pending::Text(Field::Date),
        element_text(raw) matches Some(text) && instant_of(text) is None,
    ensures
        step(m, ReplyView::Text(raw)) == (m.exhausted(), StepView::Failed(FeedError::InvalidDate)),
{
}

/// The answers of the tokenizer on an RSS item that holds a title, a link and
/// a date, in that order, and nothing else.
pub open spec fn rss_item_replies(title: Seq<char>, link: Seq<char>, date: Seq<char>) -> Seq<ReplyView> {
    seq![
        ReplyView::Token(TokenView::Start { name: "item".spec_bytes() }),
        ReplyView::Token(TokenView::Start { name: "title".spec_bytes() }),
        ReplyView::Text(title),
        ReplyView::Token(TokenView::Start { name: "link".spec_bytes() }),
        ReplyView::Text(link),
        ReplyView::Token(TokenView::Start { name: "pubDate".spec_bytes() }),
        ReplyView::Text(date),
        ReplyView::Closed,
    ]
}

/// The answers of the tokenizer on an Atom entry that holds a title, a link
/// without content and a date, in that order, and nothing else.
pub open spec fn atom_entry_replies(title: Seq<char>, attributes: Seq<char>, date: Seq<char>) -> Seq<
    ReplyView,
> {
    seq![
        ReplyView::Token(TokenView::Start { name: "entry".spec_bytes() }),
        ReplyView::Token(TokenView::Start { name: "title".spec_bytes() }),
        ReplyView::Text(title),
        ReplyView::Token(TokenView::Empty { name: "link".spec_bytes(), attributes }),
        ReplyView::Token(TokenView::Start { name: "updated".spec_bytes() }),
        ReplyView::Text(date),
        ReplyView::Closed,
    ]
}

/// The post of an RSS item with the given raw texts. Meant for texts that can
/// be read.
pub open spec fn rss_item_post(
    author: Seq<char>,
    title: Seq<char>,
    link: Seq<char>,
    date: Seq<char>,
) -> PostView {
    PostView {
        link: element_text(link)->0,
        title: element_text(title)->0,
        date: instant_of(element_text(date)->0)->0,
        author,
    }
}

/// The post of an Atom entry with the given raw texts and the given raw
/// attributes of its link. Meant for texts that can be read and attributes that
/// hold an `href`.
pub open spec fn atom_entry_post(
    author: Seq<char>,
    title: Seq<char>,
    attributes: Seq<char>,
    date: Seq<char>,
) -> PostView {
    PostView {
        link: unescaped(attribute_value(attributes, "href"@)->Ok_0->0)->0,
        title: element_text(title)->0,
        date: instant_of(element_text(date)->0)->0,
        author,
    }
}

/// An RSS item with its three children is one pull, and the pull ends with the
/// post that holds the texts of `title` and `link` and the instant of `pubDate`.
pub proof fn lemma_rss_item_yields_post(
    m: MachineView,
    title: Seq<char>,
    link: Seq<char>,
    date: Seq<char>,
)
    requires
        m.style == DocStyle::Rss,
        m.phase == Phase::BeforeFirstEntry || m.phase == Phase::SeekingNextEntry,
        m.pending == Pending::Token,
        element_text(title) is Some,
        element_text(link) is Some,
        element_text(date) matches Some(text) && instant_of(text) is Some,
    ensures
        is_pull(m, rss_item_replies(title, link, date)),
        pull(m, rss_item_replies(title, link, date)).1 == StepView::Yield(
            rss_item_post(m.author, title, link, date),
        ),
        pull(m, rss_item_replies(title, link, date)).0 == (MachineView {
            phase: Phase::SeekingNextEntry,
            fields: FieldsView::none(),
            ..m
        }),
{
    crate::parse::lemma_tag_names();
    let replies = rss_item_replies(title, link, date);
    let r0 = replies.take(0);
    let r1 = replies.take(1);
    let r2 = replies.take(2);
    let r3 = replies.take(3);
    let r4 = replies.take(4);
    let r5 = replies.take(5);
    let r6 = replies.take(6);
    let r7 = replies.take(7);
    assert(r1.drop_last() =~= r0 && r2.drop_last() =~= r1 && r3.drop_last() =~= r2);
    assert(r4.drop_last() =~= r3 && r5.drop_last() =~= r4 && r6.drop_last() =~= r5);
    assert(r7.drop_last() =~= r6 && replies.drop_last() =~= r7);
    assert(run(m, r0) == m);
    let m1 = run(m, r1);
    assert(m1.phase == Phase::InsideEntry && m1.pending == Pending::Token);
    let m2 = run(m, r2);
    assert(m2.pending == Pending::Text(Field::Title));
    let m3 = run(m, r3);
    assert(m3.fields.title == element_text(title) && m3.pending == Pending::Token);
    let m4 = run(m, r4);
    assert(m4.pending == Pending::Text(Field::Link));
    let m5 = run(m, r5);
    assert(m5.fields.link == element_text(link) && m5.pending == Pending::Token);
    let m6 = run(m, r6);
    assert(m6.pending == Pending::Text(Field::Date));
    let m7 = run(m, r7);
    assert(m7.fields.complete() && m7.pending == Pending::End);
    assert(quiet(m, r0));
    assert(quiet(m, r1));
    assert(quiet(m, r2));
    assert(quiet(m, r3));
    assert(quiet(m, r4));
    assert(quiet(m, r5));
    assert(quiet(m, r6));
    assert(quiet(m, r7));
}

/// Two RSS items and then the end of the document are three pulls: the first
/// brings the post of the first item, the second the post of the second, and
/// the third the end, after which the machine is exhausted. The posts come in
/// the order of the items, and there are exactly two.
pub proof fn lemma_two_rss_items_in_order(
    m: MachineView,
    first: (Seq<char>, Seq<char>, Seq<char>),
    second: (Seq<char>, Seq<char>, Seq<char>),
)
    requires
        m.style == DocStyle::Rss,
        m.phase == Phase::BeforeFirstEntry || m.phase == Phase::SeekingNextEntry,
        m.pending == Pending::Token,
        element_text(first.0) is Some,
        element_text(first.1) is Some,
        element_text(first.2) matches Some(text) && instant_of(text) is Some,
        element_text(second.0) is Some,
        element_text(second.1) is Some,
        element_text(second.2) matches Some(text) && instant_of(text) is Some,
    ensures
        ({
            let one = pull(m, rss_item_replies(first.0, first.1, first.2));
            let two = pull(one.0, rss_item_replies(second.0, second.1, second.2));
            let three = pull(two.0, seq![ReplyView::Token(TokenView::Eof)]);
            &&& one.1 == StepView::Yield(rss_item_post(m.author, first.0, first.1, first.2))
            &&& two.1 == StepView::Yield(rss_item_post(m.author, second.0, second.1, second.2))
            &&& three.1 == StepView::Finished
            &&& three.0.phase == Phase::Exhausted
        }),
{
    lemma_rss_item_yields_post(m, first.0, first.1, first.2);
    let one = pull(m, rss_item_replies(first.0, first.1, first.2));
    lemma_rss_item_yields_post(one.0, second.0, second.1, second.2);
    let two = pull(one.0, rss_item_replies(second.0, second.1, second.2));
    let last = seq![ReplyView::Token(TokenView::Eof)];
    assert(last.drop_last() =~= Seq::<ReplyView>::empty());
    assert(run(two.0, last.drop_last()) == two.0);
}

/// An Atom entry with a title, a link without content and a date is one pull,
/// and the pull ends with the post that holds the text of `title`, the value of
/// the link's `href` attribute, unescaped, and the instant of `updated`.
pub proof fn lemma_atom_entry_yields_post(
    m: MachineView,
    title: Seq<char>,
    attributes: Seq<char>,
    date: Seq<char>,
)
    requires
        m.style == DocStyle::Atom,
        m.phase == Phase::BeforeFirstEntry || m.phase == Phase::SeekingNextEntry,
        m.pending == Pending::Token,
        element_text(title) is Some,
        attribute_value(attributes, "href"@) matches Ok(Some(raw)) && unescaped(raw) is Some,
        element_text(date) matches Some(text) && instant_of(text) is Some,
    ensures
        is_pull(m, atom_entry_replies(title, attributes, date)),
        pull(m, atom_entry_replies(title, attributes, date)).1 == StepView::Yield(
            atom_entry_post(m.author, title, attributes, date),
        ),
        pull(m, atom_entry_replies(title, attributes, date)).0 == (MachineView {
            phase: Phase::SeekingNextEntry,
            fields: FieldsView::none(),
            ..m
        }),
{
    crate::parse::lemma_tag_names();
    let replies = atom_entry_replies(title, attributes, date);
    let r0 = replies.take(0);
    let r1 = replies.take(1);
    let r2 = replies.take(2);
    let r3 = replies.take(3);
    let r4 = replies.take(4);
    let r5 = replies.take(5);
    let r6 = replies.take(6);
    assert(r1.drop_last() =~= r0 && r2.drop_last() =~= r1 && r3.drop_last() =~= r2);
    assert(r4.drop_last() =~= r3 && r5.drop_last() =~= r4 && r6.drop_last() =~= r5);
    assert(replies.drop_last() =~= r6);
    assert(run(m, r0) == m);
    let m1 = run(m, r1);
    assert(m1.phase == Phase::InsideEntry && m1.pending == Pending::Token);
    let m2 = run(m, r2);
    assert(m2.pending == Pending::Text(Field::Title));
    let m3 = run(m, r3);
    assert(m3.fields.title == element_text(title) && m3.pending == Pending::Token);
    let m4 = run(m, r4);
    assert(m4.fields.link is Some && m4.pending == Pending::Token);
    let m5 = run(m, r5);
    assert(m5.pending == Pending::Text(Field::Date));
    let m6 = run(m, r6);
    assert(m6.fields.complete() && m6.pending == Pending::End);
    assert(quiet(m, r0));
    assert(quiet(m, r1));
    assert(quiet(m, r2));
    assert(quiet(m, r3));
    assert(quiet(m, r4));
    assert(quiet(m, r5));
    assert(quiet(m, r6));
}

/// The fields of the entry that is open, as far as they were found.
#[derive(Debug, Clone, PartialEq, Eq)]
struct Fields {
    link: Option<String>,
    title: Option<String>,
    date: Option<Timestamp>,
}

impl View for Fields {
    type V = FieldsView;

    closed spec fn view(&self) -> FieldsView {
        FieldsView {
            link: match self.link {
                Some(text) => Some(text@),
                None => None,
            },
            title: match self.title {
                Some(text) => Some(text@),
                None => None,
            },
            date: self.date,
        }
    }
}

/// The state of a parse. It is made with [`Machine::new`] and moved by
/// [`Machine::feed`] alone.
#[derive(Debug, Clone, PartialEq, Eq)]
pub struct Machine<'b> {
    style: DocStyle,
    author: &'b str,
    phase: Phase,
    pending: Pending,
    fields: Fields,
}

impl<'b> View for Machine<'b> {
    type V = MachineView;

    closed spec fn view(&self) -> MachineView {
        MachineView {
            style: self.style,
            author: self.author@,
            phase: self.phase,
            pending: self.pending,
            fields: self.fields@,
        }
    }
}

/// The field that an element of the given kind fills, if it fills one.
pub fn field_of(kind: TagKind) -> (field: Option<Field>)
    ensures
        field == spec_field_of(kind),
{
    match kind {
        TagKind::Title => Some(Field::Title),
        TagKind::Link => Some(Field::Link),
        TagKind::Timestamp => Some(Field::Date),
        _ => None,
    }
}

impl<'b> Machine<'b> {
    /// A machine for a document of the given dialect, whose posts are by `author`.
    pub fn new(style: DocStyle, author: &'b str) -> (m: Machine<'b>)
        ensures
            m@ == MachineView::start(style, author@),
    {
        Machine {
            style,
            author,
            phase: Phase::BeforeFirstEntry,
            pending: Pending::Token,
            fields: Fields { link: None, title: None, date: None },
        }
    }

    /// The dialect of the document.
    pub fn style(&self) -> (style: DocStyle)
        ensures
            style == self@.style,
    {
        self.style
    }

    /// Where the parse stands.
    pub fn phase(&self) -> (phase: Phase)
        ensures
            phase == self@.phase,
    {
        self.phase
    }

    /// What the machine is waiting for.
    pub fn pending(&self) -> (pending: Pending)
        ensures
            pending == self@.pending,
    {
        self.pending
    }

    /// Whether nothing more will come.
    pub fn is_exhausted(&self) -> (exhausted: bool)
        ensures
            exhausted == (self@.phase == Phase::Exhausted),
    {
        self.phase == Phase::Exhausted
    }

    fn give_up(&mut self)
        ensures
            final(self)@ == old(self)@.exhausted(),
    {
        self.phase = Phase::Exhausted;
        self.pending = Pending::Token;
        self.fields = Fields { link: None, title: None, date: None };
    }

    fn fail(&mut self, error: FeedError) -> (step: Step)
        ensures
            (final(self)@, step@) == old(self)@.fail(error),
    {
        self.give_up();
        Step::Failed(error)
    }

    fn finish(&mut self) -> (step: Step)
        ensures
            (final(self)@, step@) == old(self)@.finish(),
    {
        self.give_up();
        Step::Finished
    }

    fn after_capture(&mut self) -> (step: Step)
        ensures
            (final(self)@, step@) == old(self)@.after_capture(),
    {
        if self.fields.link.is_some() && self.fields.title.is_some() && self.fields.date.is_some() {
            self.pending = Pending::End;
            Step::Need(Request::End { name: self.style.entry_name() })
        } else {
            self.pending = Pending::Token;
            Step::Need(Request::Token)
        }
    }

    fn store_text(&mut self, field: Field, text: String)
        ensures
            final(self)@ == old(self)@.with_text(field, text@),
    {
        match field {
            Field::Link => {
                self.fields.link = Some(text);
            },
            Field::Title => {
                self.fields.title = Some(text);
            },
            Field::Date => {},
        }
    }

    fn on_seek_token(&mut self, token: Token) -> (step: Step)
        ensures
            (final(self)@, step@) == on_seek_token(old(self)@, token@),
    {
        match token {
            Token::Eof => self.finish(),
            Token::Start { name } => {
                if classify(self.style, name.as_slice()) == TagKind::EntryContainer {
                    self.phase = Phase::InsideEntry;
                    self.pending = Pending::Token;
                    self.fields = Fields { link: None, title: None, date: None };
                }
                Step::Need(Request::Token)
            },
            _ => Step::Need(Request::Token),
        }
    }

    fn on_child_start(&mut self, name: Vec<u8>) -> (step: Step)
        ensures
            (final(self)@, step@) == on_child_start(old(self)@, name@),
    {
        let kind = classify(self.style, name.as_slice());
        match field_of(kind) {
            Some(field) => {
                self.pending = Pending::Text(field);
                Step::Need(Request::Text { name })
            },
            None => match kind {
                TagKind::EntryContainer => self.fail(FeedError::UnexpectedToken),
                _ => {
                    self.pending = Pending::End;
                    Step::Need(Request::End { name })
                },
            },
        }
    }

    fn on_empty_link(&mut self, attributes: &str) -> (step: Step)
        ensures
            (final(self)@, step@) == on_empty_link(old(self)@, attributes@),
    {
        match find_attribute(attributes, "href") {
            Err(_) => self.fail(FeedError::Syntax),
            Ok(None) => self.fail(FeedError::MissingHref),
            Ok(Some(raw)) => match unescape(raw.as_str()) {
                Err(_) => self.fail(FeedError::Syntax),
                Ok(link) => {
                    self.store_text(Field::Link, link);
                    self.after_capture()
                },
            },
        }
    }

    fn on_child_empty(&mut self, name: Vec<u8>, attributes: String) -> (step: Step)
        ensures
            (final(self)@, step@) == on_child_empty(old(self)@, name@, attributes@),
    {
        match classify(self.style, name.as_slice()) {
            TagKind::Unrecognized => Step::Need(Request::Token),
            TagKind::Link => {
                if self.style == DocStyle::Atom {
                    self.on_empty_link(attributes.as_str())
                } else {
                    self.fail(FeedError::UnexpectedToken)
                }
            },
            _ => self.fail(FeedError::UnexpectedToken),
        }
    }

    fn on_entry_token(&mut self, token: Token) -> (step: Step)
        ensures
            (final(self)@, step@) == on_entry_token(old(self)@, token@),
    {
        match token {
            Token::Eof => self.finish(),
            Token::End { .. } => self.finish(),
            Token::Start { name } => self.on_child_start(name),
            Token::Empty { name, attributes } => self.on_child_empty(name, attributes),
            _ => self.fail(FeedError::UnexpectedToken),
        }
    }

    fn on_text(&mut self, field: Field, raw: String) -> (step: Step)
        ensures
            (final(self)@, step@) == on_text(old(self)@, field, raw@),
    {
        match read_element_text(raw.as_str()) {
            None => self.fail(FeedError::Syntax),
            Some(text) => match field {
                Field::Date => match normalize_date(text.as_str()) {
                    Err(_) => self.fail(FeedError::InvalidDate),
                    Ok(at) => {
                        self.fields.date = Some(at);
                        self.after_capture()
                    },
                },
                _ => {
                    self.store_text(field, text);
                    self.after_capture()
                },
            },
        }
    }

    fn on_closed(&mut self) -> (step: Step)
        ensures
            (final(self)@, step@) == on_closed(old(self)@),
    {
        if self.fields.link.is_some() && self.fields.title.is_some() && self.fields.date.is_some() {
            let link = self.fields.link.take().unwrap();
            let title = self.fields.title.take().unwrap();
            let date = self.fields.date.take().unwrap();
            self.phase = Phase::SeekingNextEntry;
            self.pending = Pending::Token;
            Step::Yield(Post { link, title, date, author: self.author.to_owned() })
        } else {
            self.pending = Pending::Token;
            Step::Need(Request::Token)
        }
    }

    /// Moves the machine by one answer of the tokenizer and says what follows.
    pub fn feed(&mut self, reply: Reply) -> (out: Step)
        ensures
            (final(self)@, out@) == step(old(self)@, reply@),
    {
        if self.phase == Phase::Exhausted {
            return Step::Finished;
        }
        match reply {
            Reply::Failed => self.fail(FeedError::Syntax),
            Reply::Token(token) => match self.pending {
                Pending::Token => if self.phase == Phase::InsideEntry {
                    self.on_entry_token(token)
                } else {
                    self.on_seek_token(token)
                },
                _ => self.fail(FeedError::Syntax),
            },
            Reply::Text(raw) => match self.pending {
                Pending::Text(field) => self.on_text(field, raw),
                _ => self.fail(FeedError::Syntax),
            },
            Reply::Closed => match self.pending {
                Pending::End => self.on_closed(),
                _ => self.fail(FeedError::Syntax),
            },
            Reply::Truncated => match self.pending {
                Pending::Token => self.fail(FeedError::Syntax),
                _ => self.finish(),
            },
        }
    }
}

} // verus!
