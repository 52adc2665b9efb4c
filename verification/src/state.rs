//! The three kinds of record that the board keeps, each with its view.

use vstd::prelude::*;

verus! {

/// The board's single global record: the counter that numbers the posts and
/// the address that created the board.
#[derive(Debug, PartialEq)]
pub struct State {
    pub post_count: u64,
    pub owner: String,
}

/// What a [`State`] is, as a mathematical value.
pub ghost struct StateView {
    pub post_count: u64,
    pub owner: Seq<char>,
}

impl View for State {
    type V = StateView;

    open spec fn view(&self) -> StateView {
        StateView { post_count: self.post_count, owner: self.owner@ }
    }
}

impl Clone for State {
    fn clone(&self) -> (res: Self)
        ensures
            res@ == self@,
    {
        State { post_count: self.post_count, owner: self.owner.clone() }
    }
}

/// One post: its author's name as it was when the post was written, its text,
/// and the names of those who liked it, oldest first, repeats included.
#[derive(Debug, PartialEq)]
pub struct PostData {
    pub username: String,
    pub post_text: String,
    pub user_likes: Vec<String>,
}

/// What a [`PostData`] is, as a mathematical value.
pub ghost struct PostDataView {
    pub username: Seq<char>,
    pub post_text: Seq<char>,
    pub user_likes: Seq<Seq<char>>,
}

/// The names held by a list of strings.
pub open spec fn names_of(names: Seq<String>) -> Seq<Seq<char>> {
    Seq::new(names.len(), |i: int| names[i]@)
}

impl View for PostData {
    type V = PostDataView;

    open spec fn view(&self) -> PostDataView {
        PostDataView {
            username: self.username@,
            post_text: self.post_text@,
            user_likes: names_of(self.user_likes@),
        }
    }
}

impl Clone for PostData {
    fn clone(&self) -> (res: Self)
        ensures
            res@ == self@,
    {
        let mut likes: Vec<String> = Vec::new();
        let mut i: usize = 0;
        while i < self.user_likes.len()
            invariant
                i <= self.user_likes.len(),
                likes@.len() == i,
                forall|j: int| 0 <= j < i ==> likes@[j]@ == self.user_likes@[j]@,
            decreases self.user_likes.len() - i,
        {
            likes.push(self.user_likes[i].clone());
            i += 1;
        }
        assert(names_of(likes@) =~= names_of(self.user_likes@));
        PostData {
            username: self.username.clone(),
            post_text: self.post_text.clone(),
            user_likes: likes,
        }
    }
}

/// One account: its display name and whether its rights were revoked.
#[derive(Debug, PartialEq)]
pub struct UserData {
    pub username: String,
    pub blacklist: bool,
}

/// What a [`UserData`] is, as a mathematical value.
pub ghost struct UserDataView {
    pub username: Seq<char>,
    pub blacklist: bool,
}

impl View for UserData {
    type V = UserDataView;

    open spec fn view(&self) -> UserDataView {
        UserDataView { username: self.username@, blacklist: self.blacklist }
    }
}

impl Clone for UserData {
    fn clone(&self) -> (res: Self)
        ensures
            res@ == self@,
    {
        UserData { username: self.username.clone(), blacklist: self.blacklist }
    }
}

} // verus!
