//! A blog post working through the draft / review / publish workflow.
//!
//! A post starts as a draft, moves to review when a review is requested,
//! and is published when approved. Its text can be appended to at any time,
//! but reading the content gives the empty string until the post is
//! published.

use vstd::prelude::*;

verus! {

/// Where a post stands in the editorial workflow.
pub enum PostState {
    /// Being written; content is hidden.
    Draft,
    /// Waiting for review; content is hidden.
    PendingReview,
    /// Approved; content is visible.
    Published,
}

/// A blog post: its workflow state and its text.
pub struct Post {
    state: PostState,
    content: String,
}

impl Post {
    /// The workflow state of the post.
    pub closed spec fn state_spec(&self) -> PostState {
        self.state
    }

    /// The full text of the post, visible or not.
    pub closed spec fn text(&self) -> Seq<char> {
        self.content@
    }

    /// The text a reader gets to see: the full text once the post is
    /// published, and nothing before.
    pub open spec fn visible_text(&self) -> Seq<char> {
        if self.state_spec() is Published {
            self.text()
        } else {
            Seq::empty()
        }
    }

    /// A fresh post: an empty draft.
    pub fn new() -> (p: Post)
        ensures
            p.state_spec() is Draft,
            p.text() == Seq::<char>::empty(),
    {
        Post { state: PostState::Draft, content: String::new() }
    }

    /// The content a reader may see in the post's current state.
    pub fn content(&self) -> (s: &str)
        ensures
            s@ == self.visible_text(),
    {
        match self.state {
            PostState::Published => self.content.as_str(),
            _ => {
                let empty = "";
                proof {
                    reveal_strlit("");
                    assert(empty@ =~= Seq::<char>::empty());
                }
                empty
            },
        }
    }

    /// Appends text to the post. Works in every state; what a reader sees
    /// still depends on the workflow.
    pub fn add_text(&mut self, text: &str)
        ensures
            final(self).state_spec() == old(self).state_spec(),
            final(self).text() == old(self).text() + text@,
    {
        self.content.append(text);
    }

    /// Asks for a review: a draft moves to pending review; any other state
    /// is unchanged.
    pub fn request_review(&mut self)
        ensures
            final(self).text() == old(self).text(),
            final(self).state_spec() == (if old(self).state_spec() is Draft {
                PostState::PendingReview
            } else {
                old(self).state_spec()
            }),
    {
        match self.state {
            PostState::Draft => {
                self.state = PostState::PendingReview;
            },
            _ => {},
        }
    }

    /// Approves the post: a post pending review is published; any other
    /// state is unchanged.
    pub fn approve(&mut self)
        ensures
            final(self).text() == old(self).text(),
            final(self).state_spec() == (if old(self).state_spec() is PendingReview {
                PostState::Published
            } else {
                old(self).state_spec()
            }),
    {
        match self.state {
            PostState::PendingReview => {
                self.state = PostState::Published;
            },
            _ => {},
        }
    }
}

} // verus!
