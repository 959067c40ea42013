//! Summaries of things worth reading.

use vstd::prelude::*;

verus! {

/// Something that can be summed up in one line.
pub trait Summary {
    /// The line that sums the item up. An item that has nothing better to
    /// say invites the reader to read on.
    open spec fn summary(&self) -> Seq<char> {
        "(Read more...)"@
    }

    /// Writes the summary of the item.
    fn summarize(&self) -> (line: String)
        ensures
            line@ == self.summary(),
    ;
}

/// The summary of an item that has nothing better to say: the body of
/// `summarize` for a type that keeps the `summary` it was given.
pub fn read_more() -> (line: String)
    ensures
        line@ == "(Read more...)"@,
{
    String::from_str("(Read more...)")
}

/// A news article.
pub struct NewsArticle {
    pub headline: String,
    pub location: String,
    pub author: String,
    pub content: String,
}

/// A short public message.
pub struct Tweet {
    pub username: String,
    pub content: String,
    pub reply: bool,
    pub retweet: bool,
}

impl Summary for NewsArticle {
    /// The headline, then the author and, in brackets, the place.
    open spec fn summary(&self) -> Seq<char> {
        self.headline@ + ", by "@ + self.author@ + " ("@ + self.location@ + ")"@
    }

    fn summarize(&self) -> (line: String) {
        let mut line = self.headline.clone();
        line.append(", by ");
        line.append(self.author.as_str());
        line.append(" (");
        line.append(self.location.as_str());
        line.append(")");
        line
    }
}

impl Summary for Tweet {
    /// The name of the user, a colon, and what the user wrote.
    open spec fn summary(&self) -> Seq<char> {
        self.username@ + ": "@ + self.content@
    }

    fn summarize(&self) -> (line: String) {
        let mut line = self.username.clone();
        line.append(": ");
        line.append(self.content.as_str());
        line
    }
}

/// The text that announces `item`: the call for attention, then the
/// summary of the item.
pub fn notify<T: Summary>(item: &T) -> (text: String)
    ensures
        text@ == "Breaking news! "@ + item.summary(),
{
    let mut text = String::from_str("Breaking news! ");
    let line = item.summarize();
    text.append(line.as_str());
    text
}

} // verus!
