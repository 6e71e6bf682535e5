use primer::summary::{NewsArticle, Summary, Tweet};

struct Note;

impl Summary for Note {
    fn summarize(&self) -> String {
        String::from("a note")
    }
}

#[test]
fn an_article_is_summed_up_by_headline_author_and_text() {
    let article = NewsArticle::new(
        "Tasi is learning Rust",
        "For about a month, Tasi has reading Rust's book and learning a lot.",
        "Tasi Pasin",
    );
    assert_eq!(
        article.summarize(),
        "Tasi is learning Rust\n by Tasi Pasin\nFor about a month, Tasi has reading Rust's book and learning a lot."
    );
}

#[test]
fn an_article_reads_as_its_text() {
    let article = NewsArticle::new("Head", "Body of the article", "Me");
    assert_eq!(article.to_text(), "Body of the article");
}

#[test]
fn an_empty_article_still_has_its_frame() {
    assert_eq!(NewsArticle::new("", "", "").summarize(), "\n by \n");
}

#[test]
fn a_tweet_is_summed_up_by_user_day_and_text() {
    let tweet = Tweet::new("tasi.pasin", 16, "i've been studying so much rust. it's so coool \u{1f913}");
    assert_eq!(
        tweet.summarize(),
        "@tasi.pasin on 16: \ni've been studying so much rust. it's so coool \u{1f913}"
    );
}

#[test]
fn the_day_of_a_tweet_is_written_in_decimal() {
    assert_eq!(Tweet::new("u", 0, "t").summarize(), "@u on 0: \nt");
    assert_eq!(Tweet::new("u", -7, "t").summarize(), "@u on -7: \nt");
    assert_eq!(Tweet::new("u", i32::MAX, "t").summarize(), "@u on 2147483647: \nt");
    assert_eq!(Tweet::new("u", i32::MIN, "t").summarize(), "@u on -2147483648: \nt");
}

#[test]
fn what_a_type_leaves_out_is_not_implemented() {
    assert_eq!(NewsArticle::new("h", "c", "a").never_implemented(), "Not implemented");
    assert_eq!(Tweet::new("u", 1, "c").never_implemented(), "Not implemented");
    assert_eq!(Note.never_implemented(), "Not implemented");
    assert_eq!(Note.summarize(), "a note");
}
