use blog::Post;
use blog::State;

#[test]
fn cant_view_draft_post_content() {
    let mut post = Post::new();
    post.add_text("I ate a salad for lunch today");

    assert_eq!("", post.content());
}

#[test]
fn cant_update_post_without_approval() {
    let mut post = Post::new();
    post.add_text("I ate a salad for lunch today");
    post.request_review();

    assert_eq!("", post.content())
}

#[test]
fn cant_approve_without_requesting_review() {
    let mut post = Post::new();
    post.add_text("I ate a salad for lunch today");
    post.approve();

    assert_eq!("", post.content())
}

#[test]
fn post_updates_after_review_and_approval() {
    let mut post = Post::new();
    post.add_text("I ate a salad for lunch today");
    post.request_review();
    post.approve();

    assert_eq!("I ate a salad for lunch today", post.content())
}

#[test]
fn new_post_shows_nothing() {
    let post = Post::new();
    assert_eq!("", post.content());
}

#[test]
fn edits_after_publish_are_visible_immediately() {
    let mut post = Post::new();
    post.add_text("I ate a salad for lunch today");
    post.request_review();
    post.approve();
    post.add_text(" yum");

    assert_eq!("I ate a salad for lunch today yum", post.content());
}

#[test]
fn text_accumulates_in_call_order() {
    let mut post = Post::new();
    post.add_text("a");
    post.add_text("b");
    post.request_review();
    post.approve();

    assert_eq!("ab", post.content());
}

#[test]
fn adding_nothing_changes_nothing() {
    let mut post = Post::new();
    post.add_text("a");
    post.add_text("");
    post.request_review();
    post.approve();

    assert_eq!("a", post.content());
}

#[test]
fn repeated_review_requests_are_absorbed() {
    let mut post = Post::new();
    post.add_text("draft text");
    post.request_review();
    post.request_review();
    post.approve();

    assert_eq!("draft text", post.content());
}

#[test]
fn repeated_approvals_are_absorbed() {
    let mut post = Post::new();
    post.add_text("draft text");
    post.request_review();
    post.approve();
    post.approve();

    assert_eq!("draft text", post.content());
}

#[test]
fn early_approval_does_not_block_later_publication() {
    let mut post = Post::new();
    post.add_text("draft text");
    post.approve();
    assert_eq!("", post.content());

    post.request_review();
    assert_eq!("", post.content());

    post.approve();
    assert_eq!("draft text", post.content());
}

#[test]
fn requests_after_publication_are_absorbed() {
    let mut post = Post::new();
    post.add_text("draft text");
    post.request_review();
    post.approve();
    post.request_review();

    assert_eq!("draft text", post.content());
}

#[test]
fn state_transition_table() {
    assert_eq!(State::Draft.request_review(), State::PendingReview);
    assert_eq!(State::PendingReview.request_review(), State::PendingReview);
    assert_eq!(State::Published.request_review(), State::Published);

    assert_eq!(State::Draft.approve(), State::Draft);
    assert_eq!(State::PendingReview.approve(), State::Published);
    assert_eq!(State::Published.approve(), State::Published);
}

#[test]
fn each_state_controls_visibility() {
    let mut post = Post::new();
    post.add_text("hidden until published");

    assert_eq!("", State::Draft.content(&post));
    assert_eq!("", State::PendingReview.content(&post));
    assert_eq!("hidden until published", State::Published.content(&post));

    post.request_review();
    post.approve();
    assert_eq!("hidden until published", post.content());
}
