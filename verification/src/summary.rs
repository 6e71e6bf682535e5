//! Things that can be summed up in a line or two: news articles and tweets.

use crate::numerals::{decimal, decimal_text};
use vstd::prelude::*;

verus! {

/// Something that can be summed up.
pub trait Summary {
    /// A short summary of the value.
    fn summarize(&self) -> String;

    /// A remark for a type to replace with something of its own. Until it
    /// does, the remark says that nothing has been written.
    fn never_implemented(&self) -> (text: String)
        default_ensures
            text@ == "Not implemented"@,
    {
        String::from_str("Not implemented")
    }
}

/// `text` is something that `item` may be summed up as: a result that the
/// contract of its `summarize` allows.
pub open spec fn summed_up_as<T: Summary + ?Sized>(item: &T, text: String) -> bool {
    call_ensures(T::summarize, (item,), text)
}

/// A news article.
#[derive(Debug)]
pub struct NewsArticle {
    headline: String,
    content: String,
    author: String,
}

impl NewsArticle {
    /// The headline.
    pub closed spec fn headline(&self) -> Seq<char> {
        self.headline@
    }

    /// The text of the article.
    pub closed spec fn content(&self) -> Seq<char> {
        self.content@
    }

    /// The author's name.
    pub closed spec fn author(&self) -> Seq<char> {
        self.author@
    }

    /// The summary of the article: the headline, the author on a line of
    /// their own, then the text.
    pub open spec fn summary(&self) -> Seq<char> {
        self.headline() + "\n by "@ + self.author() + "\n"@ + self.content()
    }

    /// An article with the given headline, text and author.
    pub fn new(headline: &str, content: &str, author: &str) -> (article: NewsArticle)
        ensures
            article.headline() == headline@,
            article.content() == content@,
            article.author() == author@,
    {
        NewsArticle {
            headline: String::from_str(headline),
            content: String::from_str(content),
            author: String::from_str(author),
        }
    }

    /// The article as running text: its content.
    pub fn to_text(&self) -> (text: String)
        ensures
            text@ == self.content(),
    {
        self.content.clone()
    }
}

impl Summary for NewsArticle {
    /// The headline, the author on a line of their own, then the text.
    fn summarize(&self) -> (text: String)
        ensures
            text@ == self.summary(),
    {
        let mut text = self.headline.clone();
        text.append("\n by ");
        text.append(self.author.as_str());
        text.append("\n");
        text.append(self.content.as_str());
        text
    }
}

/// A tweet.
pub struct Tweet {
    username: String,
    date: i32,
    content: String,
}

impl Tweet {
    /// The name of the user who wrote the tweet.
    pub closed spec fn username(&self) -> Seq<char> {
        self.username@
    }

    /// The day the tweet was written.
    pub closed spec fn date(&self) -> i32 {
        self.date
    }

    /// The text of the tweet.
    pub closed spec fn content(&self) -> Seq<char> {
        self.content@
    }

    /// The summary of the tweet: the user's handle and the day on one
    /// line, the text on the next.
    pub open spec fn summary(&self) -> Seq<char> {
        "@"@ + self.username() + " on "@ + decimal(self.date() as int) + ": \n"@ + self.content()
    }

    /// A tweet by the given user, of the given day, with the given text.
    pub fn new(username: &str, date: i32, content: &str) -> (tweet: Tweet)
        ensures
            tweet.username() == username@,
            tweet.date() == date,
            tweet.content() == content@,
    {
        Tweet { username: String::from_str(username), date, content: String::from_str(content) }
    }
}

impl Summary for Tweet {
    /// The user's handle and the day on one line, the text on the next.
    fn summarize(&self) -> (text: String)
        ensures
            text@ == self.summary(),
    {
        let mut text = String::from_str("@");
        text.append(self.username.as_str());
        text.append(" on ");
        let day = decimal_text(self.date as i64);
        text.append(day.as_str());
        text.append(": \n");
        text.append(self.content.as_str());
        text
    }
}

} // verus!
