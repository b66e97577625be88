use rss_feed::error::FeedError;
use rss_feed::parse::{classify, detect, same_bytes, DocStyle, Tag, TagKind};
use rss_feed::xml::Token;

const TAGS: [Tag; 7] =
    [Tag::Item, Tag::Entry, Tag::Title, Tag::Link, Tag::PubDate, Tag::Updated, Tag::Unknown];

#[test]
fn each_tag_has_its_name() {
    assert_eq!(Tag::Item.name(), Some(&b"item"[..]));
    assert_eq!(Tag::Entry.name(), Some(&b"entry"[..]));
    assert_eq!(Tag::Title.name(), Some(&b"title"[..]));
    assert_eq!(Tag::Link.name(), Some(&b"link"[..]));
    assert_eq!(Tag::PubDate.name(), Some(&b"pubDate"[..]));
    assert_eq!(Tag::Updated.name(), Some(&b"updated"[..]));
    assert_eq!(Tag::Unknown.name(), None);
}

#[test]
fn a_name_gives_back_its_tag() {
    for tag in TAGS {
        if let Some(name) = tag.name() {
            assert_eq!(Tag::from(name), tag);
        }
    }
}

#[test]
fn other_names_are_unknown() {
    for name in ["", "Item", "ITEM", "items", "ite", "pubdate", "PubDate", "rss", "feed", "a:title", "től"] {
        assert_eq!(Tag::from(name.as_bytes()), Tag::Unknown, "{name}");
    }
    assert_eq!(Tag::from(&[0xff, 0xfe][..]), Tag::Unknown);
}

#[test]
fn rss_kinds() {
    let kinds: Vec<TagKind> = TAGS.iter().map(|tag| tag.kind(DocStyle::Rss)).collect();
    assert_eq!(
        kinds,
        vec![
            TagKind::EntryContainer,
            TagKind::Unrecognized,
            TagKind::Title,
            TagKind::Link,
            TagKind::Timestamp,
            TagKind::Unrecognized,
            TagKind::Unrecognized,
        ]
    );
}

#[test]
fn atom_kinds() {
    let kinds: Vec<TagKind> = TAGS.iter().map(|tag| tag.kind(DocStyle::Atom)).collect();
    assert_eq!(
        kinds,
        vec![
            TagKind::Unrecognized,
            TagKind::EntryContainer,
            TagKind::Title,
            TagKind::Link,
            TagKind::Unrecognized,
            TagKind::Timestamp,
            TagKind::Unrecognized,
        ]
    );
}

#[test]
fn classify_goes_by_name_and_dialect() {
    assert_eq!(classify(DocStyle::Rss, b"item"), TagKind::EntryContainer);
    assert_eq!(classify(DocStyle::Rss, b"title"), TagKind::Title);
    assert_eq!(classify(DocStyle::Rss, b"link"), TagKind::Link);
    assert_eq!(classify(DocStyle::Rss, b"pubDate"), TagKind::Timestamp);
    assert_eq!(classify(DocStyle::Rss, b"entry"), TagKind::Unrecognized);
    assert_eq!(classify(DocStyle::Rss, b"updated"), TagKind::Unrecognized);
    assert_eq!(classify(DocStyle::Atom, b"entry"), TagKind::EntryContainer);
    assert_eq!(classify(DocStyle::Atom, b"title"), TagKind::Title);
    assert_eq!(classify(DocStyle::Atom, b"link"), TagKind::Link);
    assert_eq!(classify(DocStyle::Atom, b"updated"), TagKind::Timestamp);
    assert_eq!(classify(DocStyle::Atom, b"item"), TagKind::Unrecognized);
    assert_eq!(classify(DocStyle::Atom, b"pubDate"), TagKind::Unrecognized);
    assert_eq!(classify(DocStyle::Atom, b"description"), TagKind::Unrecognized);
    assert_eq!(classify(DocStyle::Rss, b""), TagKind::Unrecognized);
}

#[test]
fn entry_names_follow_the_dialect() {
    assert_eq!(DocStyle::Rss.entry_tag(), Tag::Item);
    assert_eq!(DocStyle::Atom.entry_tag(), Tag::Entry);
    assert_eq!(DocStyle::Rss.entry_name(), b"item".to_vec());
    assert_eq!(DocStyle::Atom.entry_name(), b"entry".to_vec());
}

#[test]
fn roots_name_the_dialect() {
    assert_eq!(DocStyle::of_root(b"rss"), Some(DocStyle::Rss));
    assert_eq!(DocStyle::of_root(b"feed"), Some(DocStyle::Atom));
    assert_eq!(DocStyle::of_root(b"html"), None);
    assert_eq!(DocStyle::of_root(b"RSS"), None);
    assert_eq!(DocStyle::of_root(b""), None);
}

#[test]
fn detect_wants_the_start_tag_of_a_feed() {
    assert_eq!(detect(&Token::Start { name: b"rss".to_vec() }), Ok(DocStyle::Rss));
    assert_eq!(detect(&Token::Start { name: b"feed".to_vec() }), Ok(DocStyle::Atom));
    for token in [
        Token::Start { name: b"html".to_vec() },
        Token::Empty { name: b"rss".to_vec(), attributes: String::new() },
        Token::End { name: b"rss".to_vec() },
        Token::Decl,
        Token::Other,
        Token::Eof,
    ] {
        assert_eq!(detect(&token), Err(FeedError::MalformedDocument), "{token:?}");
    }
}

#[test]
fn same_bytes_compares_content() {
    assert!(same_bytes(b"", b""));
    assert!(same_bytes(b"abc", b"abc"));
    assert!(!same_bytes(b"abc", b"abd"));
    assert!(!same_bytes(b"abc", b"ab"));
    assert!(!same_bytes(b"", b"a"));
}
