//! The decisions of the board, on records alone: what each handler tests and
//! which record it writes, whatever store the records come from.

use vstd::prelude::*;
use crate::error::ContractError;
use crate::error::{RecordKind, StdError};
use crate::model::{member_error, not_found};
use crate::state::{PostData, PostDataView, State, StateView, UserData, UserDataView};

verus! {

/// The account that a lookup gave, as a mathematical value.
pub open spec fn found_user(user: Option<&UserData>) -> Option<UserDataView> {
    match user {
        Some(u) => Some(u@),
        None => None,
    }
}

/// Tests that the caller, whose account is `user`, may post and like: without
/// an account the caller is told to sign up, with revoked rights turned away.
pub fn check_member(user: Option<&UserData>) -> (res: Result<(), ContractError>)
    ensures
        match member_error(found_user(user)) {
            Some(e) => res == Err::<(), ContractError>(e),
            None => res is Ok,
        },
{
    match user {
        None => Err(ContractError::NotSignedUp {  }),
        Some(u) => if u.blacklist {
            Err(ContractError::Blacklisted {  })
        } else {
            Ok(())
        },
    }
}

/// The account that a sign-up creates for an address whose lookup gave
/// `existing`: none if there is one already.
pub fn new_account(existing: Option<&UserData>, username: String) -> (res: Result<
    UserData,
    ContractError,
>)
    ensures
        match res {
            Ok(u) => existing is None && u@ == (UserDataView {
                username: username@,
                blacklist: false,
            }),
            Err(e) => existing is Some && e == (ContractError::AlreadyHaveAccount {  }),
        },
{
    match existing {
        Some(_) => Err(ContractError::AlreadyHaveAccount {  }),
        None => Ok(UserData { username, blacklist: false }),
    }
}

/// The global record after one more post, and the post itself: it carries the
/// author's name as it is now and no likes. The post's number is the new
/// count.
pub fn next_post(state: &State, author: &UserData, post_text: String) -> (res: (State, PostData))
    requires
        state.post_count < u64::MAX,
    ensures
        res.0@ == (StateView { post_count: (state.post_count + 1) as u64, owner: state.owner@ }),
        res.1@ == (PostDataView {
            username: author.username@,
            post_text: post_text@,
            user_likes: Seq::empty(),
        }),
{
    let next = State { post_count: state.post_count + 1, owner: state.owner.clone() };
    let post = PostData {
        username: author.username.clone(),
        post_text,
        user_likes: Vec::new(),
    };
    assert(post@.user_likes =~= Seq::empty());
    (next, post)
}

/// The post with the name of `liker` added at the end of its likes, whether
/// or not the name is there already.
pub fn add_like(post: &PostData, liker: &UserData) -> (res: PostData)
    ensures
        res@ == (PostDataView {
            user_likes: post@.user_likes.push(liker.username@),
            ..post@
        }),
{
    let mut res = post.clone();
    res.user_likes.push(liker.username.clone());
    assert(res@.user_likes =~= post@.user_likes.push(liker.username@));
    res
}

/// Whether `sender` is the board's owner.
pub fn is_owner(state: &State, sender: &String) -> (res: bool)
    ensures
        res == (sender@ == state.owner@),
{
    *sender == state.owner
}

/// The account of the target of a blacklisting by `sender`, with its rights
/// revoked. The sender's right to do so is tested first, then whether the
/// target, whose lookup gave `target`, has an account.
pub fn revoke(state: &State, sender: &String, target: Option<&UserData>) -> (res: Result<
    UserData,
    ContractError,
>)
    ensures
        match res {
            Ok(u) => sender@ == state.owner@ && target is Some && u@ == (UserDataView {
                blacklist: true,
                ..target->Some_0@
            }),
            Err(e) => e == if sender@ != state.owner@ {
                ContractError::Unauthorized {  }
            } else {
                ContractError::UserUnavailable {  }
            } && (sender@ == state.owner@ ==> target is None),
        },
{
    if !is_owner(state, sender) {
        return Err(ContractError::Unauthorized {  });
    }
    match target {
        Some(u) => Ok(UserData { username: u.username.clone(), blacklist: true }),
        None => Err(ContractError::UserUnavailable {  }),
    }
}

/// The post that a lookup gave, as a mathematical value.
pub open spec fn found_post(post: Option<&PostData>) -> Option<PostDataView> {
    match post {
        Some(p) => Some(p@),
        None => None,
    }
}

/// What a post by a caller comes to, given the global record and the
/// caller's account as the store holds them: the records to write, the post
/// under the new count, or the reason why nothing is written. A store
/// without global record fails first, then the caller is tested.
pub fn plan_post(state: Option<&State>, user: Option<&UserData>, post_text: String) -> (res:
    Result<(State, PostData), ContractError>)
    requires
        state is Some && member_error(found_user(user)) is None ==> state->Some_0.post_count
            < u64::MAX,
    ensures
        match res {
            Ok((next, post)) => {
                &&& state is Some
                &&& member_error(found_user(user)) is None
                &&& next@ == (StateView {
                    post_count: (state->Some_0.post_count + 1) as u64,
                    owner: state->Some_0.owner@,
                })
                &&& post@ == (PostDataView {
                    username: user->Some_0.username@,
                    post_text: post_text@,
                    user_likes: Seq::empty(),
                })
            },
            Err(e) => if state is None {
                e == not_found(RecordKind::State)
            } else {
                member_error(found_user(user)) == Some(e)
            },
        },
{
    let state = match state {
        Some(s) => s,
        None => {
            return Err(ContractError::Std(StdError::NotFound { kind: RecordKind::State }));
        },
    };
    match check_member(user) {
        Err(e) => {
            return Err(e);
        },
        Ok(_) => {},
    }
    match user {
        Some(author) => Ok(next_post(state, author, post_text)),
        None => Err(ContractError::NotSignedUp {  }),
    }
}

/// What a like by a caller comes to, given the caller's account and the
/// post as the store holds them: the post to write back, or the reason why
/// nothing is written. The caller is tested before the post.
pub fn plan_like(user: Option<&UserData>, post: Option<&PostData>) -> (res: Result<
    PostData,
    ContractError,
>)
    ensures
        match res {
            Ok(liked) => {
                &&& member_error(found_user(user)) is None
                &&& post is Some
                &&& liked@ == (PostDataView {
                    user_likes: post->Some_0@.user_likes.push(user->Some_0.username@),
                    ..post->Some_0@
                })
            },
            Err(e) => if member_error(found_user(user)) is Some {
                member_error(found_user(user)) == Some(e)
            } else {
                post is None && e == (ContractError::PostNotAvailable {  })
            },
        },
{
    match check_member(user) {
        Err(e) => {
            return Err(e);
        },
        Ok(_) => {},
    }
    match (user, post) {
        (Some(liker), Some(post)) => Ok(add_like(post, liker)),
        (None, _) => Err(ContractError::NotSignedUp {  }),
        (_, None) => Err(ContractError::PostNotAvailable {  }),
    }
}

} // verus!
