//! The board as a mathematical state machine: what the store holds, and what
//! each request makes of it.

use vstd::prelude::*;
use crate::error::{ContractError, RecordKind, StdError};
use crate::keys::post_key_spec;
use crate::msg::{ExecuteMsgView, QueryMsgView, QueryResponseView};
use crate::state::{PostDataView, StateView, UserDataView};

verus! {

/// What a store holds: the global record, once the board is set up, the
/// account of each address, and the posts, each under the key of its number.
pub ghost struct BoardView {
    pub state: Option<StateView>,
    pub users: Map<Seq<char>, UserDataView>,
    pub posts: Map<Seq<char>, PostDataView>,
}

/// The failure of a read that found no record of `kind`.
pub open spec fn not_found(kind: RecordKind) -> ContractError {
    ContractError::Std(StdError::NotFound { kind })
}

impl BoardView {
    /// The store that holds nothing.
    pub open spec fn empty() -> BoardView {
        BoardView { state: None, users: Map::empty(), posts: Map::empty() }
    }

    pub open spec fn put_state(self, state: StateView) -> BoardView {
        BoardView { state: Some(state), ..self }
    }

    pub open spec fn put_user(self, addr: Seq<char>, user: UserDataView) -> BoardView {
        BoardView { users: self.users.insert(addr, user), ..self }
    }

    pub open spec fn put_post(self, id: u64, post: PostDataView) -> BoardView {
        BoardView { posts: self.posts.insert(post_key_spec(id), post), ..self }
    }

    /// Whether `addr` has an account whose rights stand.
    pub open spec fn in_good_standing(self, addr: Seq<char>) -> bool {
        self.users.contains_key(addr) && !self.users[addr].blacklist
    }

    /// Whether a post by `sender` would pass every test, so that the counter
    /// is raised.
    pub open spec fn accepts_post(self, sender: Seq<char>) -> bool {
        self.state is Some && self.in_good_standing(sender)
    }

    /// Whether the counter can be raised once more.
    pub open spec fn has_room(self) -> bool {
        self.state is Some ==> self.state->Some_0.post_count < u64::MAX
    }
}

/// Why `caller` may not act as a member, if so: an address without an account
/// is told to sign up, one whose rights were revoked is turned away.
pub open spec fn member_error(user: Option<UserDataView>) -> Option<ContractError> {
    match user {
        None => Some(ContractError::NotSignedUp {  }),
        Some(u) => if u.blacklist {
            Some(ContractError::Blacklisted {  })
        } else {
            None
        },
    }
}

/// The account of `addr`, if it has one.
pub open spec fn user_at(s: BoardView, addr: Seq<char>) -> Option<UserDataView> {
    if s.users.contains_key(addr) {
        Some(s.users[addr])
    } else {
        None
    }
}

/// The post numbered `id`, if there is one.
pub open spec fn post_at(s: BoardView, id: u64) -> Option<PostDataView> {
    if s.posts.contains_key(post_key_spec(id)) {
        Some(s.posts[post_key_spec(id)])
    } else {
        None
    }
}

/// Setting the board up: the counter starts at `post_count` and the caller
/// becomes the owner. Accounts and posts stay as they are.
pub open spec fn instantiate_spec(s: BoardView, sender: Seq<char>, post_count: u64) -> BoardView {
    s.put_state(StateView { post_count, owner: sender })
}

/// Signing up: an address gets an account once, with its rights standing.
pub open spec fn sign_up_spec(s: BoardView, sender: Seq<char>, username: Seq<char>) -> Result<
    BoardView,
    ContractError,
> {
    if s.users.contains_key(sender) {
        Err(ContractError::AlreadyHaveAccount {  })
    } else {
        Ok(s.put_user(sender, UserDataView { username, blacklist: false }))
    }
}

/// Posting: a member in good standing raises the counter by one and the new
/// post, without likes, is stored under the new count.
pub open spec fn post_spec(s: BoardView, sender: Seq<char>, post_text: Seq<char>) -> Result<
    BoardView,
    ContractError,
> {
    if s.state is None {
        Err(not_found(RecordKind::State))
    } else if member_error(user_at(s, sender)) is Some {
        Err(member_error(user_at(s, sender))->Some_0)
    } else {
        let old_state = s.state->Some_0;
        let id = (old_state.post_count + 1) as u64;
        let post = PostDataView {
            username: s.users[sender].username,
            post_text,
            user_likes: Seq::empty(),
        };
        Ok(s.put_state(StateView { post_count: id, ..old_state }).put_post(id, post))
    }
}

/// Liking: a member in good standing adds their name to the end of the likes
/// of a post that exists. Membership is tested before the post is looked for.
pub open spec fn like_post_spec(s: BoardView, sender: Seq<char>, post_id: u64) -> Result<
    BoardView,
    ContractError,
> {
    if member_error(user_at(s, sender)) is Some {
        Err(member_error(user_at(s, sender))->Some_0)
    } else if post_at(s, post_id) is None {
        Err(ContractError::PostNotAvailable {  })
    } else {
        let post = post_at(s, post_id)->Some_0;
        Ok(
            s.put_post(
                post_id,
                PostDataView {
                    user_likes: post.user_likes.push(s.users[sender].username),
                    ..post
                },
            ),
        )
    }
}

/// Blacklisting: the owner, and nobody else, revokes the rights of an address
/// that has an account.
pub open spec fn blacklist_spec(s: BoardView, sender: Seq<char>, user_addr: Seq<char>) -> Result<
    BoardView,
    ContractError,
> {
    if s.state is None {
        Err(not_found(RecordKind::State))
    } else if sender != s.state->Some_0.owner {
        Err(ContractError::Unauthorized {  })
    } else if !s.users.contains_key(user_addr) {
        Err(ContractError::UserUnavailable {  })
    } else {
        Ok(s.put_user(user_addr, UserDataView { blacklist: true, ..s.users[user_addr] }))
    }
}

/// What a request that changes the board makes of the store.
pub open spec fn execute_spec(s: BoardView, sender: Seq<char>, msg: ExecuteMsgView) -> Result<
    BoardView,
    ContractError,
> {
    match msg {
        ExecuteMsgView::Post { post_text } => post_spec(s, sender, post_text),
        ExecuteMsgView::SignUp { username } => sign_up_spec(s, sender, username),
        ExecuteMsgView::LikePost { post_id } => like_post_spec(s, sender, post_id),
        ExecuteMsgView::Blacklist { user_addr } => blacklist_spec(s, sender, user_addr),
    }
}

/// The store after a call that ended in `outcome`: what the call made of it,
/// or, after a failure, the store as it was.
pub open spec fn settled(s: BoardView, outcome: Result<BoardView, ContractError>) -> BoardView {
    match outcome {
        Ok(t) => t,
        Err(_) => s,
    }
}

/// What a run of posts by one caller makes of the store, the texts taken in
/// order; the first failure ends the run.
pub open spec fn post_all(s: BoardView, sender: Seq<char>, texts: Seq<Seq<char>>) -> Result<
    BoardView,
    ContractError,
>
    decreases texts.len(),
{
    if texts.len() == 0 {
        Ok(s)
    } else {
        match post_all(s, sender, texts.drop_last()) {
            Ok(t) => post_spec(t, sender, texts.last()),
            Err(e) => Err(e),
        }
    }
}

/// The name that a handler reports of itself.
pub open spec fn method_name(msg: ExecuteMsgView) -> Seq<char> {
    match msg {
        ExecuteMsgView::Post { .. } => "try_post"@,
        ExecuteMsgView::SignUp { .. } => "try_sign_up"@,
        ExecuteMsgView::LikePost { .. } => "try_like_post"@,
        ExecuteMsgView::Blacklist { .. } => "try_blacklist"@,
    }
}

/// The answer to a query: the record asked for, or the failure of the store
/// that does not hold it.
pub open spec fn query_spec(s: BoardView, msg: QueryMsgView) -> Result<
    QueryResponseView,
    StdError,
> {
    match msg {
        QueryMsgView::GetCount => match s.state {
            Some(state) => Ok(QueryResponseView::Count { post_count: state.post_count }),
            None => Err(StdError::NotFound { kind: RecordKind::State }),
        },
        QueryMsgView::GetPost { post_id } => match post_at(s, post_id) {
            Some(post_data) => Ok(QueryResponseView::Post { post_data }),
            None => Err(StdError::NotFound { kind: RecordKind::PostData }),
        },
        QueryMsgView::GetUser { user_addr } => match user_at(s, user_addr) {
            Some(user_data) => Ok(QueryResponseView::User { user_data }),
            None => Err(StdError::NotFound { kind: RecordKind::UserData }),
        },
    }
}

} // verus!
