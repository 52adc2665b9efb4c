//! The handlers: each reads what it needs from the store, decides, and
//! writes only once every test has passed.

use vstd::prelude::*;
use cosmwasm_std::Response;
use crate::error::{ContractError, RecordKind, StdError};
use crate::model::{
    blacklist_spec, execute_spec, instantiate_spec, like_post_spec, method_name, post_at,
    post_spec, query_spec, sign_up_spec, user_at,
};
use crate::msg::{
    CountResponse, ExecuteMsg, InstantiateMsg, MessageInfo, PostResponse, QueryMsg, QueryResponse,
    UserResponse,
};
use crate::response::{
    acknowledges, for_instantiate, for_method, instantiate_attributes, method_attributes,
};
use crate::rules::{new_account, plan_like, plan_post, revoke};
use crate::store::Store;

verus! {

/// Sets the board up: the counter starts at the count given and the caller
/// becomes the owner. The acknowledgement names the method and the owner.
pub fn instantiate(store: &mut Store, info: MessageInfo, msg: InstantiateMsg) -> (res: Result<
    Response,
    ContractError,
>)
    ensures
        final(store)@ == instantiate_spec(old(store)@, info.sender@, msg.post_count),
        res is Ok,
        acknowledges(res->Ok_0, instantiate_attributes(info.sender@)),
{
    let ack = for_instantiate(info.sender.as_str());
    store.save_state(crate::state::State { post_count: msg.post_count, owner: info.sender });
    Ok(ack)
}

/// Handles a request that changes the board, by the handler that belongs to
/// it. A request that fails leaves the store as it was.
pub fn execute(store: &mut Store, info: MessageInfo, msg: ExecuteMsg) -> (res: Result<
    Response,
    ContractError,
>)
    requires
        msg is Post && old(store)@.accepts_post(info.sender@) ==> old(store)@.has_room(),
    ensures
        match res {
            Ok(ack) => execute_spec(old(store)@, info.sender@, msg@) == Ok::<_, ContractError>(
                final(store)@,
            ) && acknowledges(ack, method_attributes(method_name(msg@))),
            Err(e) => execute_spec(old(store)@, info.sender@, msg@) == Err::<
                crate::model::BoardView,
                _,
            >(e) && final(store)@ == old(store)@,
        },
{
    match msg {
        ExecuteMsg::Post { post_text } => try_post(store, info, post_text),
        ExecuteMsg::SignUp { username } => try_sign_up(store, info, username),
        ExecuteMsg::LikePost { post_id } => try_like_post(store, info, post_id),
        ExecuteMsg::Blacklist { user_addr } => try_blacklist(store, info, user_addr),
    }
}

/// Writes a post for the caller: the counter goes up by one and the post is
/// stored under the new count, both or neither.
pub fn try_post(store: &mut Store, info: MessageInfo, post_text: String) -> (res: Result<
    Response,
    ContractError,
>)
    requires
        old(store)@.accepts_post(info.sender@) ==> old(store)@.has_room(),
    ensures
        match res {
            Ok(ack) => post_spec(old(store)@, info.sender@, post_text@) == Ok::<_, ContractError>(
                final(store)@,
            ) && acknowledges(ack, method_attributes("try_post"@)),
            Err(e) => post_spec(old(store)@, info.sender@, post_text@) == Err::<
                crate::model::BoardView,
                _,
            >(e) && final(store)@ == old(store)@,
        },
{
    let planned = plan_post(
        store.load_state(),
        store.may_load_user(info.sender.as_str()),
        post_text,
    );
    let (next, post) = match planned {
        Ok(records) => records,
        Err(e) => {
            return Err(e);
        },
    };
    let id: u64 = next.post_count;
    store.save_state(next);
    store.save_post(id, post);
    Ok(for_method("try_post"))
}

/// Gives the caller an account under `username`, unless the caller has one.
pub fn try_sign_up(store: &mut Store, info: MessageInfo, username: String) -> (res: Result<
    Response,
    ContractError,
>)
    ensures
        match res {
            Ok(ack) => sign_up_spec(old(store)@, info.sender@, username@) == Ok::<
                _,
                ContractError,
            >(final(store)@) && acknowledges(ack, method_attributes("try_sign_up"@)),
            Err(e) => sign_up_spec(old(store)@, info.sender@, username@) == Err::<
                crate::model::BoardView,
                _,
            >(e) && final(store)@ == old(store)@,
        },
{
    let account = match new_account(store.may_load_user(info.sender.as_str()), username) {
        Ok(u) => u,
        Err(e) => {
            return Err(e);
        },
    };
    store.save_user(info.sender, account);
    Ok(for_method("try_sign_up"))
}

/// Adds the caller's name to the likes of the post numbered `post_id`.
pub fn try_like_post(store: &mut Store, info: MessageInfo, post_id: u64) -> (res: Result<
    Response,
    ContractError,
>)
    ensures
        match res {
            Ok(ack) => like_post_spec(old(store)@, info.sender@, post_id) == Ok::<
                _,
                ContractError,
            >(final(store)@) && acknowledges(ack, method_attributes("try_like_post"@)),
            Err(e) => like_post_spec(old(store)@, info.sender@, post_id) == Err::<
                crate::model::BoardView,
                _,
            >(e) && final(store)@ == old(store)@,
        },
{
    let planned = plan_like(
        store.may_load_user(info.sender.as_str()),
        store.may_load_post(post_id),
    );
    let liked = match planned {
        Ok(post) => post,
        Err(e) => {
            return Err(e);
        },
    };
    store.save_post(post_id, liked);
    Ok(for_method("try_like_post"))
}

/// Revokes the rights of the account of `user_addr`, for the owner alone.
pub fn try_blacklist(store: &mut Store, info: MessageInfo, user_addr: String) -> (res: Result<
    Response,
    ContractError,
>)
    ensures
        match res {
            Ok(ack) => blacklist_spec(old(store)@, info.sender@, user_addr@) == Ok::<
                _,
                ContractError,
            >(final(store)@) && acknowledges(ack, method_attributes("try_blacklist"@)),
            Err(e) => blacklist_spec(old(store)@, info.sender@, user_addr@) == Err::<
                crate::model::BoardView,
                _,
            >(e) && final(store)@ == old(store)@,
        },
{
    let revoked = {
        let state = match store.load_state() {
            Some(s) => s,
            None => {
                return Err(ContractError::Std(StdError::NotFound { kind: RecordKind::State }));
            },
        };
        match revoke(state, &info.sender, store.may_load_user(user_addr.as_str())) {
            Ok(u) => u,
            Err(e) => {
                return Err(e);
            },
        }
    };
    store.save_user(user_addr, revoked);
    Ok(for_method("try_blacklist"))
}

/// Result view of a query, for contracts.
pub open spec fn answer_view(res: Result<QueryResponse, StdError>) -> Result<
    crate::msg::QueryResponseView,
    StdError,
> {
    match res {
        Ok(r) => Ok(r@),
        Err(e) => Err(e),
    }
}

/// Answers a request that only reads the board. The answer is a function of
/// what the store holds and of the request; the store is not touched.
pub fn query(store: &Store, msg: QueryMsg) -> (res: Result<QueryResponse, StdError>)
    ensures
        answer_view(res) == query_spec(store@, msg@),
{
    match msg {
        QueryMsg::GetCount {  } => match query_count(store) {
            Ok(r) => Ok(QueryResponse::Count(r)),
            Err(e) => Err(e),
        },
        QueryMsg::GetPost { post_id } => match query_post(store, post_id) {
            Ok(r) => Ok(QueryResponse::Post(r)),
            Err(e) => Err(e),
        },
        QueryMsg::GetUser { user_addr } => match query_user(store, user_addr) {
            Ok(r) => Ok(QueryResponse::User(r)),
            Err(e) => Err(e),
        },
    }
}

/// The counter: the number of the post written last.
pub fn query_count(store: &Store) -> (res: Result<CountResponse, StdError>)
    ensures
        match res {
            Ok(r) => store@.state is Some && r.post_count == store@.state->Some_0.post_count,
            Err(e) => store@.state is None && e == (StdError::NotFound {
                kind: RecordKind::State,
            }),
        },
{
    match store.load_state() {
        Some(state) => Ok(CountResponse { post_count: state.post_count }),
        None => Err(StdError::NotFound { kind: RecordKind::State }),
    }
}

/// The post numbered `post_id`; a failure if there is none.
pub fn query_post(store: &Store, post_id: u64) -> (res: Result<PostResponse, StdError>)
    ensures
        match res {
            Ok(r) => post_at(store@, post_id) == Some(r.post_data@),
            Err(e) => post_at(store@, post_id) is None && e == (StdError::NotFound {
                kind: RecordKind::PostData,
            }),
        },
{
    match store.may_load_post(post_id) {
        Some(post) => Ok(PostResponse { post_data: post.clone() }),
        None => Err(StdError::NotFound { kind: RecordKind::PostData }),
    }
}

/// The account of `user_addr`; a failure if it has none.
pub fn query_user(store: &Store, user_addr: String) -> (res: Result<UserResponse, StdError>)
    ensures
        match res {
            Ok(r) => user_at(store@, user_addr@) == Some(r.user_data@),
            Err(e) => user_at(store@, user_addr@) is None && e == (StdError::NotFound {
                kind: RecordKind::UserData,
            }),
        },
{
    match store.may_load_user(user_addr.as_str()) {
        Some(user) => Ok(UserResponse { user_data: user.clone() }),
        None => Err(StdError::NotFound { kind: RecordKind::UserData }),
    }
}

} // verus!
