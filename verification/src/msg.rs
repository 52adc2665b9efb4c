//! What callers send to the board and what the board answers.

use vstd::prelude::*;
use crate::state::{PostData, PostDataView, UserData, UserDataView};

verus! {

/// An amount of one kind of token.
#[derive(Debug, PartialEq)]
pub struct Coin {
    pub denom: String,
    pub amount: u128,
}

/// Who makes a call, and the funds sent along with it. The board looks at
/// the sender alone.
#[derive(Debug, PartialEq)]
pub struct MessageInfo {
    pub sender: String,
    pub funds: Vec<Coin>,
}

/// The request that sets a board up.
#[derive(Clone, Copy, Debug, PartialEq)]
pub struct InstantiateMsg {
    pub post_count: u64,
}

/// A request that changes the board.
#[derive(Debug, PartialEq)]
pub enum ExecuteMsg {
    Post { post_text: String },
    SignUp { username: String },
    LikePost { post_id: u64 },
    Blacklist { user_addr: String },
}

/// What an [`ExecuteMsg`] is, as a mathematical value.
pub ghost enum ExecuteMsgView {
    Post { post_text: Seq<char> },
    SignUp { username: Seq<char> },
    LikePost { post_id: u64 },
    Blacklist { user_addr: Seq<char> },
}

impl View for ExecuteMsg {
    type V = ExecuteMsgView;

    open spec fn view(&self) -> ExecuteMsgView {
        match self {
            ExecuteMsg::Post { post_text } => ExecuteMsgView::Post { post_text: post_text@ },
            ExecuteMsg::SignUp { username } => ExecuteMsgView::SignUp { username: username@ },
            ExecuteMsg::LikePost { post_id } => ExecuteMsgView::LikePost { post_id: *post_id },
            ExecuteMsg::Blacklist { user_addr } => ExecuteMsgView::Blacklist {
                user_addr: user_addr@,
            },
        }
    }
}

/// A request that only reads the board.
#[derive(Debug, PartialEq)]
pub enum QueryMsg {
    GetCount {  },
    GetPost { post_id: u64 },
    GetUser { user_addr: String },
}

/// What a [`QueryMsg`] is, as a mathematical value.
pub ghost enum QueryMsgView {
    GetCount,
    GetPost { post_id: u64 },
    GetUser { user_addr: Seq<char> },
}

impl View for QueryMsg {
    type V = QueryMsgView;

    open spec fn view(&self) -> QueryMsgView {
        match self {
            QueryMsg::GetCount {  } => QueryMsgView::GetCount,
            QueryMsg::GetPost { post_id } => QueryMsgView::GetPost { post_id: *post_id },
            QueryMsg::GetUser { user_addr } => QueryMsgView::GetUser { user_addr: user_addr@ },
        }
    }
}

/// The answer to `GetCount`.
#[derive(Clone, Copy, Debug, PartialEq)]
pub struct CountResponse {
    pub post_count: u64,
}

/// The answer to `GetPost`.
#[derive(Debug, PartialEq)]
pub struct PostResponse {
    pub post_data: PostData,
}

/// The answer to `GetUser`.
#[derive(Debug, PartialEq)]
pub struct UserResponse {
    pub user_data: UserData,
}

/// The answer to a query, one variant for each request.
#[derive(Debug, PartialEq)]
pub enum QueryResponse {
    Count(CountResponse),
    Post(PostResponse),
    User(UserResponse),
}

/// What a [`QueryResponse`] is, as a mathematical value.
pub ghost enum QueryResponseView {
    Count { post_count: u64 },
    Post { post_data: PostDataView },
    User { user_data: UserDataView },
}

impl View for QueryResponse {
    type V = QueryResponseView;

    open spec fn view(&self) -> QueryResponseView {
        match self {
            QueryResponse::Count(r) => QueryResponseView::Count { post_count: r.post_count },
            QueryResponse::Post(r) => QueryResponseView::Post { post_data: r.post_data@ },
            QueryResponse::User(r) => QueryResponseView::User { user_data: r.user_data@ },
        }
    }
}

} // verus!
