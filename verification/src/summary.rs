//! Summarising content: a trait with per-type summaries, and two media
//! types implementing it.

use vstd::prelude::*;
use vstd::string::StringExecFns;

verus! {

/// Behaviour shared by summarisable content. Each implementor fixes, in
/// specification, what its author line and its summary say, and the
/// executable methods are proved to produce exactly that.
pub trait Summary: Sized {
    /// What the author line says.
    spec fn author_spec(&self) -> Seq<char>;

    /// What the summary says.
    spec fn summary_spec(&self) -> Seq<char>;

    /// The author line.
    fn summarize_author(&self) -> (r: String)
        ensures
            r@ == self.author_spec(),
    ;

    /// The summary.
    fn summarize(&self) -> (r: String)
        ensures
            r@ == self.summary_spec(),
    ;
}

/// A short message: who wrote it and what it says.
pub struct Tweet {
    pub username: String,
    pub content: String,
    pub reply: bool,
    pub retweet: bool,
}

impl Summary for Tweet {
    open spec fn author_spec(&self) -> Seq<char> {
        "@"@ + self.username@
    }

    open spec fn summary_spec(&self) -> Seq<char> {
        self.username@ + ": "@ + self.content@
    }

    fn summarize_author(&self) -> (r: String) {
        "@".to_owned().concat(self.username.as_str())
    }

    fn summarize(&self) -> (r: String) {
        self.username.clone().concat(": ").concat(self.content.as_str())
    }
}

/// A news article with a headline, a location, an author and a body.
pub struct NewsArticle {
    pub headline: String,
    pub location: String,
    pub author: String,
    pub content: String,
}

impl Summary for NewsArticle {
    open spec fn author_spec(&self) -> Seq<char> {
        "@"@ + self.author@
    }

    open spec fn summary_spec(&self) -> Seq<char> {
        "(Read more from "@ + self.author_spec() + "...)"@
    }

    fn summarize_author(&self) -> (r: String) {
        "@".to_owned().concat(self.author.as_str())
    }

    fn summarize(&self) -> (r: String) {
        let author = self.summarize_author();
        let r = "(Read more from ".to_owned().concat(author.as_str()).concat("...)");
        proof {
            assert(r@ =~= self.summary_spec());
        }
        r
    }
}

/// Some summarisable content: a fixed tweet.
pub fn returns_summarizable() -> (t: impl Summary)
    ensures
        t.summary_spec() == "horse_ebooks"@ + ": "@
            + "of course, as you probably already know, people"@,
{
    Tweet {
        username: String::from_str("horse_ebooks"),
        content: String::from_str("of course, as you probably already know, people"),
        reply: false,
        retweet: false,
    }
}

} // verus!
