//! Feed aggregation: a pull parser that turns RSS 2.0 and Atom documents into posts.

use crate::date::{
    day_text, instant_text, parse_rfc3339, rfc3339_instant, rfc3339_text, write_day, write_instant,
    write_rfc3339, Timestamp,
};
use crate::error::FeedError;
use vstd::prelude::*;
use vstd::string::StringExecFns;

pub mod date;
pub mod error;
pub mod machine;
pub mod parse;
pub mod storage;
pub mod text;
pub mod xml;

verus! {

/// What the command line asks for.
#[derive(Debug, Clone, Copy, PartialEq, Eq, Structural)]
pub struct Options {
    /// Open the page once it is written (`-o` or `--open`).
    pub open_feed: bool,
    /// Leave the stored posts untouched (`--dry-run`).
    pub dry_run: bool,
}

/// Whether `flag` stands among the arguments that follow the program's name.
pub open spec fn has_flag(args: Seq<String>, flag: Seq<char>) -> bool {
    exists|i: int| 1 <= i < args.len() && #[trigger] args[i]@ == flag
}

/// Whether two texts hold the same characters.
pub fn same_text(a: &str, b: &str) -> (same: bool)
    ensures
        same == (a@ == b@),
{
    proof {
        vstd::utf8::encode_utf8_decode_utf8(a@);
        vstd::utf8::encode_utf8_decode_utf8(b@);
    }
    crate::parse::same_bytes(a.as_bytes(), b.as_bytes())
}

fn find_flag(args: &Vec<String>, flag: &str) -> (found: bool)
    ensures
        found == has_flag(args@, flag@),
{
    let mut i: usize = 1;
    while i < args.len()
        invariant
            1 <= i,
            forall|j: int| 1 <= j < i && j < args.len() ==> args@[j]@ != flag@,
        decreases args.len() - i,
    {
        if same_text(args[i].as_str(), flag) {
            return true;
        }
        i += 1;
    }
    false
}

impl Options {
    /// Reads the options off the command line. The first argument is the
    /// program's name and is passed over.
    pub fn new(args: Vec<String>) -> (options: Options)
        ensures
            options.open_feed == (has_flag(args@, "-o"@) || has_flag(args@, "--open"@)),
            options.dry_run == has_flag(args@, "--dry-run"@),
    {
        let open_feed = find_flag(&args, "-o") || find_flag(&args, "--open");
        let dry_run = find_flag(&args, "--dry-run");
        Options { open_feed, dry_run }
    }
}

/// A feed to read: a short name, the address of its document, and the author
/// that its posts are put down to.
#[derive(Debug, Clone, Copy, PartialEq, Eq)]
pub struct Site<'a> {
    pub slug: &'a str,
    pub rss_link: &'a str,
    pub author: &'a str,
}

/// One post of a feed.
#[derive(Debug, Clone, PartialEq, Eq)]
pub struct Post {
    /// The post's address.
    pub link: String,
    /// The post's heading.
    pub title: String,
    /// When the post was published or last updated.
    pub date: Timestamp,
    /// Who wrote it: given by the caller with the document, never read from it.
    pub author: String,
}

/// A [`Post`] as a mathematical value.
pub struct PostView {
    pub link: Seq<char>,
    pub title: Seq<char>,
    pub date: Timestamp,
    pub author: Seq<char>,
}

impl View for Post {
    type V = PostView;

    open spec fn view(&self) -> PostView {
        PostView { link: self.link@, title: self.title@, date: self.date, author: self.author@ }
    }
}

impl Post {
    /// The instant that a stored date stands for, or `None` where the text is
    /// not RFC 3339.
    pub open spec fn spec_parse_stored_date(text: Seq<char>) -> Result<Timestamp, FeedError> {
        match rfc3339_instant(text) {
            Some(at) => Ok(at),
            None => Err(FeedError::InvalidDate),
        }
    }

    /// Reads a date as it is stored: in RFC 3339.
    pub fn parse_stored_date(text: &str) -> (r: Result<Timestamp, FeedError>)
        ensures
            r == Post::spec_parse_stored_date(text@),
    {
        match parse_rfc3339(text) {
            Ok(at) => Ok(at),
            Err(_) => Err(FeedError::InvalidDate),
        }
    }

    /// The post's date as it is stored: in RFC 3339. `None` where the date lies
    /// outside the years that can be written.
    pub fn stored_date(&self) -> (r: Option<String>)
        ensures
            r is Some <==> rfc3339_text(self.date.secs as int, self.date.nanos as int) is Some,
            r matches Some(text) ==> rfc3339_text(self.date.secs as int, self.date.nanos as int)
                == Some(text@),
    {
        write_rfc3339(self.date)
    }

    /// The line that [`Post::to_text`] writes, given the date as text.
    pub open spec fn spec_line(self, date: Seq<char>) -> Seq<char> {
        date + " \""@ + self.title@ + "\" ("@ + self.author@ + ") - "@ + self.link@
    }

    /// One line for the post: the date, the title in quotes, the author in
    /// brackets, and the link. `None` where the date lies outside the years
    /// that can be written.
    pub fn to_text(&self) -> (r: Option<String>)
        ensures
            match instant_text(self.date.secs as int, self.date.nanos as int) {
                Some(date) => r matches Some(line) && line@ == self.spec_line(date),
                None => r is None,
            },
    {
        match write_instant(self.date) {
            Some(date) => {
                let mut line = date;
                line.append(" \"");
                line.append(self.title.as_str());
                line.append("\" (");
                line.append(self.author.as_str());
                line.append(") - ");
                line.append(self.link.as_str());
                Some(line)
            },
            None => None,
        }
    }
}

/// The text that opens the page.
pub open spec fn html_head() -> Seq<char> {
    "<html lang=\"en\"><head><link rel=\"stylesheet\" href=\"style.css\"></head><body>"@
}

/// The text that closes the page.
pub open spec fn html_tail() -> Seq<char> {
    "</body></html>"@
}

/// The text of one post on the page, given its day as text.
pub open spec fn html_item(post: PostView, day: Seq<char>) -> Seq<char> {
    " <div class=\"item\"> <span class=\"date\">"@ + day + "</span> <span class=\"author\">"@
        + post.author + "</span> <a href=\""@ + post.link + "\">"@ + post.title + "</a> </div> "@
}

/// The texts of the posts one after the other, or `None` where the day of one
/// of them cannot be written.
pub open spec fn html_items(posts: Seq<Post>) -> Option<Seq<char>>
    decreases posts.len(),
{
    if posts.len() == 0 {
        Some(Seq::empty())
    } else {
        match (
            html_items(posts.drop_last()),
            day_text(posts.last().date.secs as int, posts.last().date.nanos as int),
        ) {
            (Some(before), Some(day)) => Some(before + html_item(posts.last()@, day)),
            _ => None,
        }
    }
}

/// The page for a list of posts, or `None` where the day of one of them
/// cannot be written.
pub open spec fn html_page(posts: Seq<Post>) -> Option<Seq<char>> {
    match html_items(posts) {
        Some(items) => Some(html_head() + items + html_tail()),
        None => None,
    }
}

/// The page that shows a list of posts in the order of the list.
pub fn output_list_to_html(list: &Vec<Post>) -> (r: Option<String>)
    ensures
        r is Some <==> html_page(list@) is Some,
        r matches Some(page) ==> html_page(list@) == Some(page@),
{
    let mut page = String::from_str(
        "<html lang=\"en\"><head><link rel=\"stylesheet\" href=\"style.css\"></head><body>",
    );
    let mut i: usize = 0;
    while i < list.len()
        invariant
            i <= list.len(),
            html_items(list@.take(i as int)) matches Some(items) && page@ == html_head() + items,
        decreases list.len() - i,
    {
        let item = &list[i];
        proof {
            assert(list@.take(i + 1).drop_last() =~= list@.take(i as int));
        }
        match write_day(item.date) {
            Some(day) => {
                let ghost before = page@;
                page.append(" <div class=\"item\"> <span class=\"date\">");
                page.append(day.as_str());
                page.append("</span> <span class=\"author\">");
                page.append(item.author.as_str());
                page.append("</span> <a href=\"");
                page.append(item.link.as_str());
                page.append("\">");
                page.append(item.title.as_str());
                page.append("</a> </div> ");
                assert(page@ =~= before + html_item(item@, day@));
                assert(page@ =~= html_head() + (html_items(list@.take(i as int))->0 + html_item(
                    item@,
                    day@,
                )));
            },
            None => {
                proof {
                    lemma_html_items_prefix(list@, i + 1);
                }
                return None;
            },
        }
        i += 1;
    }
    proof {
        assert(list@.take(i as int) =~= list@);
    }
    page.append("</body></html>");
    Some(page)
}

/// Where the posts up to some point cannot be put on a page, the whole list
/// cannot either.
proof fn lemma_html_items_prefix(posts: Seq<Post>, n: int)
    requires
        0 <= n <= posts.len(),
        html_items(posts.take(n)) is None,
    ensures
        html_items(posts) is None,
    decreases posts.len() - n,
{
    if n < posts.len() {
        assert(posts.take(n + 1).drop_last() =~= posts.take(n));
        lemma_html_items_prefix(posts, n + 1);
    } else {
        assert(posts.take(n) =~= posts);
    }
}

/// Where the style sheet of the page goes: the file `style.css` in the
/// application's directory, whose path is given with its closing separator.
pub fn output_css(app_dir: &str) -> (path: String)
    ensures
        path@ == app_dir@ + "style.css"@,
{
    String::from_str(app_dir).concat("style.css")
}

} // verus!
