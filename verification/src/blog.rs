//! A blog post on its way from draft to publication. A post is reviewed on
//! request, is published after two approvals, and shows its text only once
//! it is published.

use vstd::prelude::*;

verus! {

/// The stage that a post is in.
#[derive(Debug, PartialEq, Eq, Copy, Clone, Structural)]
pub enum Stage {
    /// Being written.
    Draft,
    /// Waiting for approval, with the number of approvals it has so far.
    PendingReview { approvals: u8 },
    /// Approved twice and open to readers.
    Published,
}

impl Stage {
    /// The stage after a review is requested: a draft goes to review with no
    /// approvals; any other stage stays as it is.
    pub open spec fn after_request_review(self) -> Stage {
        match self {
            Stage::Draft => Stage::PendingReview { approvals: 0 },
            other => other,
        }
    }

    /// The stage after an approval: a post in review is published by its
    /// second approval and counts the first; any other stage stays as it is.
    pub open spec fn after_approve(self) -> Stage {
        match self {
            Stage::PendingReview { approvals } => if approvals + 1 >= 2 {
                Stage::Published
            } else {
                Stage::PendingReview { approvals: (approvals + 1) as u8 }
            },
            other => other,
        }
    }

    /// The name of the stage.
    pub open spec fn name(self) -> Seq<char> {
        match self {
            Stage::Draft => "Draft"@,
            Stage::PendingReview { .. } => "PendingReview"@,
            Stage::Published => "Published"@,
        }
    }

    /// A stage that a post can reach: a post in review has fewer than two
    /// approvals.
    pub open spec fn valid(self) -> bool {
        match self {
            Stage::PendingReview { approvals } => approvals < 2,
            _ => true,
        }
    }

    fn request_review(self) -> (next: Stage)
        ensures
            next == self.after_request_review(),
    {
        match self {
            Stage::Draft => Stage::PendingReview { approvals: 0 },
            other => other,
        }
    }

    fn approve(self) -> (next: Stage)
        ensures
            next == self.after_approve(),
    {
        match self {
            Stage::PendingReview { approvals } => {
                if approvals >= 1 {
                    Stage::Published
                } else {
                    Stage::PendingReview { approvals: approvals + 1 }
                }
            },
            other => other,
        }
    }

    fn content<'a>(&self, post: &'a Post) -> (shown: &'a str)
        ensures
            shown@ == (match *self {
                Stage::Published => post.text(),
                _ => Seq::<char>::empty(),
            }),
    {
        match self {
            Stage::Published => post.content.as_str(),
            _ => {
                proof {
                    reveal_strlit("");
                }
                assert(""@ =~= Seq::<char>::empty());
                ""
            },
        }
    }

    fn state_string(&self) -> (name: String)
        ensures
            name@ == self.name(),
    {
        match self {
            Stage::Draft => String::from_str("Draft"),
            Stage::PendingReview { .. } => String::from_str("PendingReview"),
            Stage::Published => String::from_str("Published"),
        }
    }
}

/// A post starts in a stage that it can reach, and no request and no
/// approval takes it out of these stages.
pub proof fn lemma_stage_stays_valid(stage: Stage)
    requires
        stage.valid(),
    ensures
        Stage::Draft.valid(),
        stage.after_request_review().valid(),
        stage.after_approve().valid(),
{
}

/// A blog post.
pub struct Post {
    state: Stage,
    content: String,
}

impl Post {
    /// The stage that the post is in.
    pub closed spec fn stage(&self) -> Stage {
        self.state
    }

    /// The text written so far, published or not.
    pub closed spec fn text(&self) -> Seq<char> {
        self.content@
    }

    /// An empty draft.
    pub fn new() -> (post: Post)
        ensures
            post.stage() == Stage::Draft,
            post.text() == Seq::<char>::empty(),
    {
        Post { state: Stage::Draft, content: String::new() }
    }

    /// Adds `text` to the end of the post, in any stage.
    pub fn add_text(&mut self, text: &str)
        ensures
            final(self).text() == old(self).text() + text@,
            final(self).stage() == old(self).stage(),
    {
        self.content.append(text);
    }

    /// Asks for a review of the post.
    pub fn request_review(&mut self)
        ensures
            final(self).stage() == old(self).stage().after_request_review(),
            final(self).text() == old(self).text(),
    {
        self.state = self.state.request_review();
    }

    /// Approves the post.
    pub fn approve(&mut self)
        ensures
            final(self).stage() == old(self).stage().after_approve(),
            final(self).text() == old(self).text(),
    {
        self.state = self.state.approve();
    }

    /// What readers see of the post: its text once it is published, nothing
    /// before.
    pub fn content(&self) -> (shown: &str)
        ensures
            shown@ == (if self.stage() == Stage::Published {
                self.text()
            } else {
                Seq::<char>::empty()
            }),
    {
        self.state.content(self)
    }

    /// The name of the stage that the post is in.
    pub fn state(&self) -> (name: String)
        ensures
            name@ == self.stage().name(),
    {
        self.state.state_string()
    }
}

} // verus!
