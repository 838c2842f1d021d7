use vstd::prelude::*;

verus! {

/// The user
#[derive(Clone, Debug)]
pub struct User {
    /// The user name
    pub name: String,
    /// The number of posts
    pub posts: u64,
    /// The number of comments
    pub comments: u64,
    /// The time this user was created, as the ISO 8601 text the service sent
    pub created: String,
}

/// The mathematical content of a user.
pub struct UserView {
    /// The user name
    pub name: Seq<char>,
    /// The number of posts
    pub posts: u64,
    /// The number of comments
    pub comments: u64,
    /// The creation time text
    pub created: Seq<char>,
}

impl View for User {
    type V = UserView;

    open spec fn view(&self) -> UserView {
        UserView { name: self.name@, posts: self.posts, comments: self.comments, created: self.created@ }
    }
}

} // verus!
