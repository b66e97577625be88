use rss_feed::date::Timestamp;
use rss_feed::error::FeedError;
use rss_feed::storage::{post_from_row, schema_step, SchemaStep};
use rss_feed::{output_css, output_list_to_html, same_text, Options, Post, Site};

fn args(list: &[&str]) -> Vec<String> {
    list.iter().map(|arg| arg.to_string()).collect()
}

fn post(secs: i64, nanos: u32) -> Post {
    Post {
        link: "https://x/1".to_string(),
        title: "A title".to_string(),
        date: Timestamp { secs, nanos },
        author: "Ada".to_string(),
    }
}

#[test]
fn options_read_the_flags() {
    assert_eq!(Options::new(args(&["prog"])), Options { open_feed: false, dry_run: false });
    assert_eq!(Options::new(args(&["prog", "-o"])), Options { open_feed: true, dry_run: false });
    assert_eq!(Options::new(args(&["prog", "--open"])), Options { open_feed: true, dry_run: false });
    assert_eq!(Options::new(args(&["prog", "--dry-run"])), Options { open_feed: false, dry_run: true });
    assert_eq!(
        Options::new(args(&["prog", "x", "--dry-run", "y", "-o"])),
        Options { open_feed: true, dry_run: true }
    );
}

#[test]
fn options_pass_over_the_program_name_and_other_words() {
    assert_eq!(Options::new(args(&[])), Options { open_feed: false, dry_run: false });
    assert_eq!(Options::new(args(&["--open"])), Options { open_feed: false, dry_run: false });
    assert_eq!(Options::new(args(&["--dry-run", "-o"])), Options { open_feed: true, dry_run: false });
    assert_eq!(
        Options::new(args(&["prog", "-O", "--Open", "-open", "--dry_run", "--dry-run "])),
        Options { open_feed: false, dry_run: false }
    );
}

#[test]
fn same_text_compares_characters() {
    assert!(same_text("", ""));
    assert!(same_text("héllo", "héllo"));
    assert!(!same_text("héllo", "hello"));
    assert!(!same_text("a", "ab"));
}

#[test]
fn a_site_holds_three_texts() {
    let site = Site { slug: "s", rss_link: "https://x/rss.xml", author: "A" };
    assert_eq!(site.slug, "s");
    assert_eq!(site.rss_link, "https://x/rss.xml");
    assert_eq!(site.author, "A");
}

#[test]
fn a_post_is_stored_with_an_rfc3339_date() {
    assert_eq!(post(1727881200, 0).stored_date(), Some("2024-10-02T15:00:00+00:00".to_string()));
    assert_eq!(post(1728029730, 250_000_000).stored_date(), Some("2024-10-04T08:15:30.250+00:00".to_string()));
    assert_eq!(post(0, 1).stored_date(), Some("1970-01-01T00:00:00.000000001+00:00".to_string()));
    assert_eq!(post(-1, 0).stored_date(), Some("1969-12-31T23:59:59+00:00".to_string()));
}

#[test]
fn a_stored_date_reads_back_as_the_same_instant() {
    for (secs, nanos) in [(1727881200, 0), (1728029730, 250_000_000), (0, 0), (-86_401, 7)] {
        let text = post(secs, nanos).stored_date().unwrap();
        assert_eq!(Post::parse_stored_date(&text), Ok(Timestamp { secs, nanos }));
    }
}

#[test]
fn dates_out_of_range_cannot_be_written() {
    assert_eq!(post(i64::MAX, 0).stored_date(), None);
    assert_eq!(post(i64::MIN, 0).stored_date(), None);
    assert_eq!(post(0, 2_000_000_000).stored_date(), None);
    assert_eq!(post(i64::MAX, 0).to_text(), None);
    assert_eq!(output_list_to_html(&vec![post(0, 0), post(i64::MAX, 0)]), None);
}

#[test]
fn a_post_is_written_on_one_line() {
    assert_eq!(
        post(1727881200, 0).to_text(),
        Some("2024-10-02 15:00:00 UTC \"A title\" (Ada) - https://x/1".to_string())
    );
}

#[test]
fn the_page_lists_the_posts_in_order() {
    let mut second = post(1727965800, 0);
    second.link = "https://x/2".to_string();
    second.title = "B & <b>".to_string();
    second.author = "Grace".to_string();
    let page = output_list_to_html(&vec![post(1727881200, 0), second]).unwrap();
    assert_eq!(
        page,
        "<html lang=\"en\"><head><link rel=\"stylesheet\" href=\"style.css\"></head><body> \
         <div class=\"item\"> <span class=\"date\">2024-10-02</span> \
         <span class=\"author\">Ada</span> <a href=\"https://x/1\">A title</a> </div>  \
         <div class=\"item\"> <span class=\"date\">2024-10-03</span> \
         <span class=\"author\">Grace</span> <a href=\"https://x/2\">B & <b></a> </div> \
         </body></html>"
    );
}

#[test]
fn the_page_of_no_posts_is_empty() {
    assert_eq!(
        output_list_to_html(&Vec::new()),
        Some(
            "<html lang=\"en\"><head><link rel=\"stylesheet\" href=\"style.css\"></head><body></body></html>"
                .to_string()
        )
    );
}

#[test]
fn the_style_sheet_goes_into_the_application_directory() {
    assert_eq!(output_css("./app/"), "./app/style.css");
    assert_eq!(output_css(""), "style.css");
}

#[test]
fn a_store_is_migrated_once() {
    assert_eq!(schema_step(0), SchemaStep::Migrate);
    assert_eq!(schema_step(1), SchemaStep::Ready);
    assert_eq!(schema_step(2), SchemaStep::Unknown);
    assert_eq!(schema_step(usize::MAX), SchemaStep::Unknown);
}

#[test]
fn a_row_is_a_post() {
    assert_eq!(
        post_from_row(
            "https://x/1".to_string(),
            "A title".to_string(),
            "2024-10-02T15:00:00+00:00",
            "Ada".to_string()
        ),
        Ok(post(1727881200, 0))
    );
    assert_eq!(
        post_from_row("l".to_string(), "t".to_string(), "not a date", "a".to_string()),
        Err(FeedError::InvalidDate)
    );
}

#[test]
fn errors_have_a_sentence_each() {
    let errors = [
        FeedError::MalformedDocument,
        FeedError::Syntax,
        FeedError::UnexpectedToken,
        FeedError::MissingHref,
        FeedError::InvalidDate,
    ];
    for (i, a) in errors.iter().enumerate() {
        assert!(!a.message().is_empty());
        for b in &errors[i + 1..] {
            assert_ne!(a.message(), b.message());
        }
    }
    assert_eq!(FeedError::Syntax.message(), "the document is not well-formed XML");
}
