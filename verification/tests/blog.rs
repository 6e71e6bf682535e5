use primer::blog::Post;

#[test]
fn a_post_goes_from_draft_to_publication() {
    let mut post = Post::new();

    post.add_text("I really want to play 7 Days to Die");
    assert_eq!("", post.content());
    assert_eq!(post.state(), "Draft");

    post.approve();
    assert_eq!("", post.content());
    assert_eq!(post.state(), "Draft");

    post.request_review();
    assert_eq!("", post.content());
    assert_eq!(post.state(), "PendingReview");

    post.approve();
    assert_eq!("", post.content());
    assert_eq!(post.state(), "PendingReview");

    post.approve();
    assert_eq!(post.state(), "Published");
    assert_eq!("I really want to play 7 Days to Die", post.content());
}

#[test]
fn a_new_post_is_an_empty_draft() {
    let post = Post::new();
    assert_eq!(post.state(), "Draft");
    assert_eq!(post.content(), "");
}

#[test]
fn a_second_request_does_not_undo_an_approval() {
    let mut post = Post::new();
    post.request_review();
    post.approve();
    post.request_review();
    assert_eq!(post.state(), "PendingReview");
    post.approve();
    assert_eq!(post.state(), "Published");
}

#[test]
fn a_published_post_stays_published() {
    let mut post = Post::new();
    post.add_text("done");
    post.request_review();
    post.approve();
    post.approve();
    post.approve();
    post.request_review();
    assert_eq!(post.state(), "Published");
    assert_eq!(post.content(), "done");
}

#[test]
fn text_can_be_added_in_every_stage() {
    let mut post = Post::new();
    post.add_text("a");
    post.request_review();
    post.add_text("b");
    post.approve();
    post.add_text("c");
    post.approve();
    post.add_text("d");
    assert_eq!(post.content(), "abcd");
}
