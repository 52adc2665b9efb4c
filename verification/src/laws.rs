//! What holds of the board over any run of requests, proved from the
//! transition functions that the handlers are verified against.

use vstd::prelude::*;
use crate::error::ContractError;
use crate::keys::law_post_keys_differ;
use crate::model::{
    blacklist_spec, execute_spec, instantiate_spec, like_post_spec, post_all, post_at, post_spec,
    query_spec, settled, sign_up_spec, BoardView,
};
use crate::msg::{ExecuteMsgView, QueryMsgView, QueryResponseView};
use crate::state::{PostDataView, StateView};

verus! {

/// Once a board is set up with a count, the counter reads that count, and
/// the caller who set it up, and nobody else, passes the owner's test of a
/// blacklisting.
pub proof fn law_instantiate_sets_count_and_owner(
    s: BoardView,
    caller: Seq<char>,
    post_count: u64,
    other: Seq<char>,
    target: Seq<char>,
)
    ensures
        query_spec(instantiate_spec(s, caller, post_count), QueryMsgView::GetCount) == Ok::<
            _,
            crate::error::StdError,
        >(QueryResponseView::Count { post_count }),
        blacklist_spec(instantiate_spec(s, caller, post_count), caller, target)
            != Err::<BoardView, _>(ContractError::Unauthorized {  }),
        other != caller ==> blacklist_spec(instantiate_spec(s, caller, post_count), other, target)
            == Err::<BoardView, _>(ContractError::Unauthorized {  }),
{
}

/// An address signs up once: whatever came of a first sign-up, a second from
/// the same address fails because the account exists, and where the first
/// went through the account carries the first name.
pub proof fn law_sign_up_once(
    s: BoardView,
    addr: Seq<char>,
    first: Seq<char>,
    second: Seq<char>,
)
    ensures
        sign_up_spec(settled(s, sign_up_spec(s, addr, first)), addr, second) == Err::<
            BoardView,
            _,
        >(ContractError::AlreadyHaveAccount {  }),
        sign_up_spec(s, addr, first) is Ok ==> {
            let after = settled(
                settled(s, sign_up_spec(s, addr, first)),
                sign_up_spec(settled(s, sign_up_spec(s, addr, first)), addr, second),
            );
            after.users.contains_key(addr) && after.users[addr].username == first
        },
{
}

/// No request takes an account away or changes its name, whoever sends it.
pub proof fn law_username_is_kept(
    s: BoardView,
    sender: Seq<char>,
    msg: ExecuteMsgView,
    addr: Seq<char>,
)
    requires
        s.users.contains_key(addr),
    ensures
        settled(s, execute_spec(s, sender, msg)).users.contains_key(addr),
        settled(s, execute_spec(s, sender, msg)).users[addr].username == s.users[addr].username,
{
}

/// No request changes the owner of a board that is set up, or lowers its
/// counter.
pub proof fn law_owner_is_kept(s: BoardView, sender: Seq<char>, msg: ExecuteMsgView)
    requires
        s.state is Some,
        s.has_room(),
    ensures
        settled(s, execute_spec(s, sender, msg)).state is Some,
        settled(s, execute_spec(s, sender, msg)).state->Some_0.owner == s.state->Some_0.owner,
        settled(s, execute_spec(s, sender, msg)).state->Some_0.post_count
            >= s.state->Some_0.post_count,
{
}

/// What a run of posts leaves behind: the counter has gone up by the number
/// of texts, the text at place `i` stands under the number that follows the
/// old count by `i + 1`, with the author's name and no likes, and the accounts
/// and every other post are as before.
pub open spec fn numbered(
    s: BoardView,
    t: BoardView,
    sender: Seq<char>,
    texts: Seq<Seq<char>>,
) -> bool {
    let count = s.state->Some_0.post_count;
    &&& t.state == Some(
        StateView { post_count: (count + texts.len()) as u64, owner: s.state->Some_0.owner },
    )
    &&& t.users == s.users
    &&& forall|i: int|
        0 <= i < texts.len() ==> post_at(t, (count + 1 + i) as u64) == Some(
            PostDataView {
                username: s.users[sender].username,
                post_text: #[trigger] texts[i],
                user_likes: Seq::empty(),
            },
        )
    &&& forall|id: u64|
        id <= count || id > count + texts.len() ==> #[trigger] post_at(t, id) == post_at(s, id)
}

/// A member in good standing who posts some texts one after the other sees
/// every post go through, numbered without a gap from the count before the
/// first, and the counter at the number of the last. On a board set up with
/// a count of zero the posts are numbered from one.
pub proof fn law_posts_are_numbered(s: BoardView, sender: Seq<char>, texts: Seq<Seq<char>>)
    requires
        s.accepts_post(sender),
        s.state->Some_0.post_count + texts.len() <= u64::MAX,
    ensures
        post_all(s, sender, texts) is Ok,
        numbered(s, post_all(s, sender, texts)->Ok_0, sender, texts),
        query_spec(post_all(s, sender, texts)->Ok_0, QueryMsgView::GetCount) == Ok::<
            _,
            crate::error::StdError,
        >(
            QueryResponseView::Count {
                post_count: (s.state->Some_0.post_count + texts.len()) as u64,
            },
        ),
    decreases texts.len(),
{
    if texts.len() > 0 {
        let front = texts.drop_last();
        law_posts_are_numbered(s, sender, front);
        let mid = post_all(s, sender, front)->Ok_0;
        let t = post_all(s, sender, texts)->Ok_0;
        let count = s.state->Some_0.post_count;
        assert(post_all(s, sender, texts) == post_spec(mid, sender, texts.last()));
        assert forall|i: int| 0 <= i < texts.len() implies post_at(t, (count + 1 + i) as u64)
            == Some(
            PostDataView {
                username: s.users[sender].username,
                post_text: #[trigger] texts[i],
                user_likes: Seq::empty(),
            },
        ) by {
            if i < front.len() {
                assert(front[i] == texts[i]);
                law_post_keys_differ((count + 1 + i) as u64, (count + texts.len()) as u64);
            }
        }
        assert forall|id: u64| id <= count || id > count + texts.len() implies #[trigger] post_at(
            t,
            id,
        ) == post_at(s, id) by {
            assert(post_at(mid, id) == post_at(s, id));
            law_post_keys_differ(id, (count + texts.len()) as u64);
        }
    }
}

/// A post by an address without an account, or by one whose rights were
/// revoked, fails with the failure that says so, on a board that is set up;
/// the store, and with it the counter and the posts, stays as it was.
pub proof fn law_post_needs_standing(s: BoardView, sender: Seq<char>, post_text: Seq<char>)
    requires
        s.state is Some,
        !s.in_good_standing(sender),
    ensures
        !s.users.contains_key(sender) ==> post_spec(s, sender, post_text) == Err::<BoardView, _>(
            ContractError::NotSignedUp {  },
        ),
        s.users.contains_key(sender) ==> post_spec(s, sender, post_text) == Err::<BoardView, _>(
            ContractError::Blacklisted {  },
        ),
        settled(s, post_spec(s, sender, post_text)) == s,
{
}

/// Two members in good standing who like a post one after the other leave
/// their names at the end of its likes, in that order; a post that had no
/// likes then has these two.
pub proof fn law_likes_accumulate(
    s: BoardView,
    first: Seq<char>,
    second: Seq<char>,
    post_id: u64,
)
    requires
        s.in_good_standing(first),
        s.in_good_standing(second),
        post_at(s, post_id) is Some,
    ensures
        like_post_spec(s, first, post_id) is Ok,
        like_post_spec(like_post_spec(s, first, post_id)->Ok_0, second, post_id) is Ok,
        post_at(
            like_post_spec(like_post_spec(s, first, post_id)->Ok_0, second, post_id)->Ok_0,
            post_id,
        ) == Some(
            PostDataView {
                user_likes: post_at(s, post_id)->Some_0.user_likes.push(
                    s.users[first].username,
                ).push(s.users[second].username),
                ..post_at(s, post_id)->Some_0
            },
        ),
        post_at(s, post_id)->Some_0.user_likes.len() == 0 ==> post_at(
            like_post_spec(like_post_spec(s, first, post_id)->Ok_0, second, post_id)->Ok_0,
            post_id,
        )->Some_0.user_likes == seq![s.users[first].username, s.users[second].username],
{
    let likes = post_at(s, post_id)->Some_0.user_likes;
    if likes.len() == 0 {
        assert(likes.push(s.users[first].username).push(s.users[second].username) =~= seq![
            s.users[first].username,
            s.users[second].username,
        ]);
    }
}

/// A like of a post that does not exist, by a member in good standing, fails
/// because the post is not there, and the store stays as it was.
pub proof fn law_like_needs_post(s: BoardView, sender: Seq<char>, post_id: u64)
    requires
        s.in_good_standing(sender),
        post_at(s, post_id) is None,
    ensures
        like_post_spec(s, sender, post_id) == Err::<BoardView, _>(
            ContractError::PostNotAvailable {  },
        ),
        settled(s, like_post_spec(s, sender, post_id)) == s,
{
}

/// A like by an address that may not act fails for that reason whether or not
/// the post exists: the caller is tested before the post is looked for.
pub proof fn law_like_tests_caller_first(s: BoardView, sender: Seq<char>, post_id: u64)
    requires
        !s.in_good_standing(sender),
    ensures
        like_post_spec(s, sender, post_id) == Err::<BoardView, _>(
            if s.users.contains_key(sender) {
                ContractError::Blacklisted {  }
            } else {
                ContractError::NotSignedUp {  }
            },
        ),
{
}

/// On a board that is set up, a blacklisting by anyone but the owner fails as
/// unauthorized, and one by the owner of an address without an account fails
/// because the account is not there.
pub proof fn law_blacklist_needs_owner_and_account(
    s: BoardView,
    sender: Seq<char>,
    user_addr: Seq<char>,
)
    requires
        s.state is Some,
    ensures
        sender != s.state->Some_0.owner ==> blacklist_spec(s, sender, user_addr) == Err::<
            BoardView,
            _,
        >(ContractError::Unauthorized {  }),
        sender == s.state->Some_0.owner && !s.users.contains_key(user_addr) ==> blacklist_spec(
            s,
            sender,
            user_addr,
        ) == Err::<BoardView, _>(ContractError::UserUnavailable {  }),
        sender == s.state->Some_0.owner && s.users.contains_key(user_addr) ==> blacklist_spec(
            s,
            sender,
            user_addr,
        ) is Ok,
{
}

/// After a blacklisting that went through, the account is marked, and every
/// post and every like by its address fails as blacklisted.
pub proof fn law_blacklisted_cannot_act(
    s: BoardView,
    sender: Seq<char>,
    user_addr: Seq<char>,
    post_text: Seq<char>,
    post_id: u64,
)
    requires
        blacklist_spec(s, sender, user_addr) is Ok,
    ensures
        blacklist_spec(s, sender, user_addr)->Ok_0.users[user_addr].blacklist,
        post_spec(blacklist_spec(s, sender, user_addr)->Ok_0, user_addr, post_text) == Err::<
            BoardView,
            _,
        >(ContractError::Blacklisted {  }),
        like_post_spec(blacklist_spec(s, sender, user_addr)->Ok_0, user_addr, post_id) == Err::<
            BoardView,
            _,
        >(ContractError::Blacklisted {  }),
{
}

/// No request gives revoked rights back.
pub proof fn law_blacklist_is_permanent(
    s: BoardView,
    sender: Seq<char>,
    msg: ExecuteMsgView,
    addr: Seq<char>,
)
    requires
        s.users.contains_key(addr),
        s.users[addr].blacklist,
    ensures
        settled(s, execute_spec(s, sender, msg)).users.contains_key(addr),
        settled(s, execute_spec(s, sender, msg)).users[addr].blacklist,
{
}

/// Reads repeat: two answers to one question, put to a store that holds the
/// same both times, are the same answer.
pub proof fn law_queries_repeat(
    s: BoardView,
    question: QueryMsgView,
    first: Result<QueryResponseView, crate::error::StdError>,
    second: Result<QueryResponseView, crate::error::StdError>,
)
    requires
        first == query_spec(s, question),
        second == query_spec(s, question),
    ensures
        first == second,
{
}

/// A request that fails changes the answer to no query.
pub proof fn law_failure_changes_no_answer(
    s: BoardView,
    sender: Seq<char>,
    msg: ExecuteMsgView,
    question: QueryMsgView,
)
    requires
        execute_spec(s, sender, msg) is Err,
    ensures
        query_spec(settled(s, execute_spec(s, sender, msg)), question) == query_spec(s, question),
{
}

} // verus!
