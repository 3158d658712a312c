//! Short summaries of articles and tweets.
use vstd::prelude::*;
use vstd::string::*;

verus! {

/// Something that can be summed up in one line.
pub trait Summary {
    /// The text that `summarize` returns.
    spec fn summary_text(&self) -> Seq<char>;

    /// The text that `test` returns.
    spec fn test_text(&self) -> Seq<char>;

    fn summarize(&self) -> (r: String)
        ensures
            r@ == self.summary_text(),
    ;

    fn test(&self) -> (r: String)
        ensures
            r@ == self.test_text(),
    ;
}

pub struct NewArticle {
    pub headline: String,
    pub location: String,
    pub author: String,
    pub content: String,
}

impl Summary for NewArticle {
    /// "headline, by author (location)".
    open spec fn summary_text(&self) -> Seq<char> {
        self.headline@ + ", by "@ + self.author@ + " ("@ + self.location@ + ")"@
    }

    open spec fn test_text(&self) -> Seq<char> {
        "impl trait func test in NewArticle"@
    }

    fn summarize(&self) -> (r: String) {
        let mut s = self.headline.clone();
        s.append(", by ");
        s.append(self.author.as_str());
        s.append(" (");
        s.append(self.location.as_str());
        s.append(")");
        s
    }

    fn test(&self) -> (r: String) {
        String::from_str("impl trait func test in NewArticle")
    }
}

pub struct Tweet {
    pub username: String,
    pub content: String,
    pub reply: bool,
    pub retweet: bool,
}

impl Summary for Tweet {
    /// "username: content".
    open spec fn summary_text(&self) -> Seq<char> {
        self.username@ + ": "@ + self.content@
    }

    open spec fn test_text(&self) -> Seq<char> {
        "Default impl in Summary trait."@
    }

    fn summarize(&self) -> (r: String) {
        let mut s = self.username.clone();
        s.append(": ");
        s.append(self.content.as_str());
        s
    }

    fn test(&self) -> (r: String) {
        String::from_str("Default impl in Summary trait.")
    }
}

/// A sample tweet to summarize.
pub fn return_summarizable() -> (r: Tweet)
    ensures
        r.username@ == "Hello, world"@,
        r.content@ == "of course, as you probably already know, people"@,
        !r.reply,
        !r.retweet,
{
    Tweet {
        username: String::from_str("Hello, world"),
        content: String::from_str("of course, as you probably already know, people"),
        reply: false,
        retweet: false,
    }
}

} // verus!
