use rss_feed::date::Timestamp;
use rss_feed::error::FeedError;
use rss_feed::machine::{Field, Machine, Pending, Phase, Step};
use rss_feed::parse::DocStyle;
use rss_feed::xml::{Reply, Request, Token};
use rss_feed::Post;

fn start(name: &str) -> Reply {
    Reply::Token(Token::Start { name: name.as_bytes().to_vec() })
}

fn end(name: &str) -> Reply {
    Reply::Token(Token::End { name: name.as_bytes().to_vec() })
}

fn empty(name: &str, attributes: &str) -> Reply {
    Reply::Token(Token::Empty { name: name.as_bytes().to_vec(), attributes: attributes.to_string() })
}

fn text(text: &str) -> Reply {
    Reply::Text(text.to_string())
}

fn need_text(name: &str) -> Step {
    Step::Need(Request::Text { name: name.as_bytes().to_vec() })
}

fn need_end(name: &str) -> Step {
    Step::Need(Request::End { name: name.as_bytes().to_vec() })
}

fn inside_entry(style: DocStyle) -> Machine<'static> {
    let mut machine = Machine::new(style, "me");
    let opening = match style {
        DocStyle::Rss => "item",
        DocStyle::Atom => "entry",
    };
    assert_eq!(machine.feed(start(opening)), Step::Need(Request::Token));
    assert_eq!(machine.phase(), Phase::InsideEntry);
    machine
}

#[test]
fn a_new_machine_waits_for_a_token_before_the_first_entry() {
    let machine = Machine::new(DocStyle::Atom, "me");
    assert_eq!(machine.style(), DocStyle::Atom);
    assert_eq!(machine.phase(), Phase::BeforeFirstEntry);
    assert_eq!(machine.pending(), Pending::Token);
    assert!(!machine.is_exhausted());
}

#[test]
fn rss_item_is_one_pull() {
    let mut machine = Machine::new(DocStyle::Rss, "me");
    assert_eq!(machine.feed(start("channel")), Step::Need(Request::Token));
    assert_eq!(machine.phase(), Phase::BeforeFirstEntry);
    assert_eq!(machine.feed(start("item")), Step::Need(Request::Token));
    assert_eq!(machine.phase(), Phase::InsideEntry);
    assert_eq!(machine.feed(start("title")), need_text("title"));
    assert_eq!(machine.pending(), Pending::Text(Field::Title));
    assert_eq!(machine.feed(text("A &amp; B")), Step::Need(Request::Token));
    assert_eq!(machine.feed(start("link")), need_text("link"));
    assert_eq!(machine.pending(), Pending::Text(Field::Link));
    assert_eq!(machine.feed(text("https://x/1")), Step::Need(Request::Token));
    assert_eq!(machine.feed(start("pubDate")), need_text("pubDate"));
    assert_eq!(machine.pending(), Pending::Text(Field::Date));
    assert_eq!(machine.feed(text("Wed, 02 Oct 2024 15:00:00 +0000")), need_end("item"));
    assert_eq!(machine.pending(), Pending::End);
    assert_eq!(machine.phase(), Phase::InsideEntry);
    assert_eq!(
        machine.feed(Reply::Closed),
        Step::Yield(Post {
            link: "https://x/1".to_string(),
            title: "A & B".to_string(),
            date: Timestamp { secs: 1727881200, nanos: 0 },
            author: "me".to_string(),
        })
    );
    assert_eq!(machine.phase(), Phase::SeekingNextEntry);
    assert_eq!(machine.pending(), Pending::Token);
    assert_eq!(machine.feed(end("channel")), Step::Need(Request::Token));
    assert_eq!(machine.feed(Reply::Token(Token::Eof)), Step::Finished);
    assert!(machine.is_exhausted());
}

#[test]
fn atom_entry_with_href_is_one_pull() {
    let mut machine = inside_entry(DocStyle::Atom);
    assert_eq!(machine.feed(start("updated")), need_text("updated"));
    assert_eq!(machine.feed(text("2024-10-04T08:15:30.250Z")), Step::Need(Request::Token));
    assert_eq!(machine.feed(empty("link", " href=\"https://x/1\"")), Step::Need(Request::Token));
    assert_eq!(machine.feed(start("title")), need_text("title"));
    assert_eq!(machine.feed(text("<![CDATA[Hello & World]]>")), need_end("entry"));
    assert_eq!(
        machine.feed(Reply::Closed),
        Step::Yield(Post {
            link: "https://x/1".to_string(),
            title: "Hello & World".to_string(),
            date: Timestamp { secs: 1728029730, nanos: 250_000_000 },
            author: "me".to_string(),
        })
    );
}

#[test]
fn everything_but_an_entry_is_passed_over_while_seeking() {
    let mut machine = Machine::new(DocStyle::Rss, "me");
    for reply in [
        Reply::Token(Token::Decl),
        Reply::Token(Token::Other),
        start("title"),
        start("entry"),
        end("item"),
        empty("item", ""),
    ] {
        assert_eq!(machine.feed(reply), Step::Need(Request::Token));
        assert_eq!(machine.phase(), Phase::BeforeFirstEntry);
    }
}

#[test]
fn unknown_child_is_skipped_and_the_entry_goes_on() {
    let mut machine = inside_entry(DocStyle::Rss);
    assert_eq!(machine.feed(start("description")), need_end("description"));
    assert_eq!(machine.pending(), Pending::End);
    assert_eq!(machine.feed(Reply::Closed), Step::Need(Request::Token));
    assert_eq!(machine.phase(), Phase::InsideEntry);
    assert_eq!(machine.feed(empty("enclosure", " url=\"u\"")), Step::Need(Request::Token));
    assert_eq!(machine.phase(), Phase::InsideEntry);
}

#[test]
fn the_end_of_the_document_inside_an_entry_is_no_error() {
    let mut machine = inside_entry(DocStyle::Rss);
    assert_eq!(machine.feed(Reply::Token(Token::Eof)), Step::Finished);
    assert!(machine.is_exhausted());

    let mut machine = inside_entry(DocStyle::Rss);
    assert_eq!(machine.feed(start("title")), need_text("title"));
    assert_eq!(machine.feed(Reply::Truncated), Step::Finished);
    assert!(machine.is_exhausted());

    let mut machine = inside_entry(DocStyle::Rss);
    assert_eq!(machine.feed(start("other")), need_end("other"));
    assert_eq!(machine.feed(Reply::Truncated), Step::Finished);
    assert!(machine.is_exhausted());
}

#[test]
fn an_entry_that_closes_early_ends_the_parse() {
    let mut machine = inside_entry(DocStyle::Atom);
    assert_eq!(machine.feed(start("title")), need_text("title"));
    assert_eq!(machine.feed(text("t")), Step::Need(Request::Token));
    assert_eq!(machine.feed(end("entry")), Step::Finished);
    assert!(machine.is_exhausted());
    assert_eq!(machine.feed(start("entry")), Step::Finished);
}

#[test]
fn an_exhausted_machine_stays_exhausted() {
    let mut machine = Machine::new(DocStyle::Rss, "me");
    assert_eq!(machine.feed(Reply::Token(Token::Eof)), Step::Finished);
    for reply in [start("item"), text("t"), Reply::Closed, Reply::Truncated, Reply::Failed] {
        assert_eq!(machine.feed(reply), Step::Finished);
        assert_eq!(machine.phase(), Phase::Exhausted);
    }
}

#[test]
fn a_failure_of_the_tokenizer_is_a_syntax_error_in_every_phase() {
    let mut machine = Machine::new(DocStyle::Rss, "me");
    assert_eq!(machine.feed(Reply::Failed), Step::Failed(FeedError::Syntax));
    assert!(machine.is_exhausted());

    let mut machine = inside_entry(DocStyle::Rss);
    assert_eq!(machine.feed(start("title")), need_text("title"));
    assert_eq!(machine.feed(Reply::Failed), Step::Failed(FeedError::Syntax));
    assert!(machine.is_exhausted());
}

#[test]
fn an_answer_to_another_question_is_a_syntax_error() {
    let mut machine = Machine::new(DocStyle::Rss, "me");
    assert_eq!(machine.feed(text("t")), Step::Failed(FeedError::Syntax));

    let mut machine = Machine::new(DocStyle::Rss, "me");
    assert_eq!(machine.feed(Reply::Closed), Step::Failed(FeedError::Syntax));

    let mut machine = Machine::new(DocStyle::Rss, "me");
    assert_eq!(machine.feed(Reply::Truncated), Step::Failed(FeedError::Syntax));

    let mut machine = inside_entry(DocStyle::Rss);
    assert_eq!(machine.feed(start("title")), need_text("title"));
    assert_eq!(machine.feed(start("link")), Step::Failed(FeedError::Syntax));

    let mut machine = inside_entry(DocStyle::Rss);
    assert_eq!(machine.feed(start("title")), need_text("title"));
    assert_eq!(machine.feed(Reply::Closed), Step::Failed(FeedError::Syntax));

    let mut machine = inside_entry(DocStyle::Rss);
    assert_eq!(machine.feed(start("other")), need_end("other"));
    assert_eq!(machine.feed(text("t")), Step::Failed(FeedError::Syntax));
}

#[test]
fn each_error_of_an_entry_has_its_input() {
    let mut machine = inside_entry(DocStyle::Rss);
    assert_eq!(machine.feed(start("item")), Step::Failed(FeedError::UnexpectedToken));

    let mut machine = inside_entry(DocStyle::Rss);
    assert_eq!(machine.feed(Reply::Token(Token::Other)), Step::Failed(FeedError::UnexpectedToken));

    let mut machine = inside_entry(DocStyle::Rss);
    assert_eq!(machine.feed(Reply::Token(Token::Decl)), Step::Failed(FeedError::UnexpectedToken));

    let mut machine = inside_entry(DocStyle::Rss);
    assert_eq!(machine.feed(empty("link", " href=\"l\"")), Step::Failed(FeedError::UnexpectedToken));

    let mut machine = inside_entry(DocStyle::Atom);
    assert_eq!(machine.feed(empty("link", " rel=\"self\"")), Step::Failed(FeedError::MissingHref));

    let mut machine = inside_entry(DocStyle::Atom);
    assert_eq!(machine.feed(empty("link", " href")), Step::Failed(FeedError::Syntax));

    let mut machine = inside_entry(DocStyle::Atom);
    assert_eq!(machine.feed(empty("link", " href=\"&bad\"")), Step::Failed(FeedError::Syntax));

    let mut machine = inside_entry(DocStyle::Atom);
    assert_eq!(machine.feed(start("title")), need_text("title"));
    assert_eq!(machine.feed(text("&bad;")), Step::Failed(FeedError::Syntax));

    let mut machine = inside_entry(DocStyle::Atom);
    assert_eq!(machine.feed(start("updated")), need_text("updated"));
    assert_eq!(machine.feed(text("02/10/2024")), Step::Failed(FeedError::InvalidDate));
    assert!(machine.is_exhausted());
}

#[test]
fn fields_of_one_entry_do_not_leak_into_the_next() {
    let mut machine = inside_entry(DocStyle::Rss);
    assert_eq!(machine.feed(start("title")), need_text("title"));
    assert_eq!(machine.feed(text("old")), Step::Need(Request::Token));
    assert_eq!(machine.feed(start("link")), need_text("link"));
    assert_eq!(machine.feed(text("old")), Step::Need(Request::Token));
    assert_eq!(machine.feed(start("pubDate")), need_text("pubDate"));
    assert_eq!(machine.feed(text("2024-10-02T15:00:00Z")), need_end("item"));
    assert!(matches!(machine.feed(Reply::Closed), Step::Yield(_)));
    assert_eq!(machine.feed(start("item")), Step::Need(Request::Token));
    assert_eq!(machine.feed(start("title")), need_text("title"));
    assert_eq!(machine.feed(text("new")), Step::Need(Request::Token));
    assert_eq!(machine.feed(start("skipped")), need_end("skipped"));
    assert_eq!(machine.feed(Reply::Closed), Step::Need(Request::Token));
}
