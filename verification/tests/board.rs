use message_board::contract::{
    execute, instantiate, query, query_count, query_post, query_user, try_blacklist,
    try_like_post, try_post, try_sign_up,
};
use message_board::error::{ContractError, RecordKind, StdError};
use cosmwasm_std::{Attribute, Response};
use message_board::msg::{
    Coin, CountResponse, ExecuteMsg, InstantiateMsg, MessageInfo, PostResponse, QueryMsg,
    QueryResponse, UserResponse,
};
use message_board::response::{for_instantiate, for_method};
use message_board::keys::post_key;
use message_board::rules::{
    add_like, check_member, is_owner, new_account, next_post, plan_like, plan_post, revoke,
};
use message_board::state::{PostData, State, UserData};
use message_board::store::Store;

fn coins(amount: u128, denom: &str) -> Vec<Coin> {
    vec![Coin { denom: denom.to_string(), amount }]
}

fn mock_info(sender: &str, funds: &[Coin]) -> MessageInfo {
    let mut copy = Vec::new();
    for c in funds {
        copy.push(Coin { denom: c.denom.clone(), amount: c.amount });
    }
    MessageInfo { sender: sender.to_string(), funds: copy }
}

fn count_of(res: QueryResponse) -> CountResponse {
    match res {
        QueryResponse::Count(value) => value,
        _ => panic!("Must answer with the count!"),
    }
}

fn post_of(res: QueryResponse) -> PostResponse {
    match res {
        QueryResponse::Post(value) => value,
        _ => panic!("Must answer with a post!"),
    }
}

fn user_of(res: QueryResponse) -> UserResponse {
    match res {
        QueryResponse::User(value) => value,
        _ => panic!("Must answer with a user!"),
    }
}

fn board(post_count: u64) -> Store {
    let mut store = Store::new();
    let info = mock_info("creator", &coins(2, "token"));
    instantiate(&mut store, info, InstantiateMsg { post_count }).unwrap();
    store
}

fn sign_up(store: &mut Store, addr: &str, username: &str) {
    let msg = ExecuteMsg::SignUp { username: username.to_string() };
    execute(store, mock_info(addr, &[]), msg).unwrap();
}

#[test]
fn proper_initialization() {
    let mut store = Store::new();

    let msg = InstantiateMsg { post_count: 17 };
    let info = mock_info("creator", &coins(1000, "earth"));

    let res = instantiate(&mut store, info, msg).unwrap();
    assert_eq!(0, res.messages.len());

    let res = query(&store, QueryMsg::GetCount {}).unwrap();
    let value: CountResponse = count_of(res);
    assert_eq!(17, value.post_count);
}

#[test]
fn get_user() {
    let mut store = Store::new();

    let msg = InstantiateMsg { post_count: 0 };
    let info = mock_info("creator", &coins(2, "token"));
    let _res = instantiate(&mut store, info, msg).unwrap();

    let info = mock_info("anyone", &coins(2, "token"));
    let msg = ExecuteMsg::SignUp { username: "someguy6".to_string() };
    let _res = execute(&mut store, info, msg).unwrap();

    let info = mock_info("anyone", &coins(2, "token"));
    let msg = ExecuteMsg::SignUp { username: "someotherguy3".to_string() };
    let res = execute(&mut store, info, msg);
    match res {
        Err(ContractError::AlreadyHaveAccount {}) => {}
        _ => panic!("Must return an already have account error!"),
    }

    let res = query(&store, QueryMsg::GetUser { user_addr: "anyone".to_string() }).unwrap();
    let value: UserResponse = user_of(res);
    let expected_output = UserResponse {
        user_data: UserData { username: "someguy6".to_string(), blacklist: false },
    };
    assert_eq!(expected_output, value);
}

#[test]
fn post() {
    let mut store = Store::new();

    let msg = InstantiateMsg { post_count: 0 };
    let info = mock_info("creator", &coins(2, "token"));
    let _res = instantiate(&mut store, info, msg).unwrap();

    let info = mock_info("anyone", &coins(2, "token"));
    let msg = ExecuteMsg::SignUp { username: "someguy6".to_string() };
    let _res = execute(&mut store, info, msg).unwrap();

    let info = mock_info("anyone", &coins(2, "token"));
    let msg = ExecuteMsg::Post { post_text: "Terra is the best!".to_string() };
    let _res = execute(&mut store, info, msg).unwrap();

    let info = mock_info("anyone", &coins(2, "token"));
    let msg = ExecuteMsg::LikePost { post_id: 1 };
    let _res = execute(&mut store, info, msg).unwrap();

    let res = query(&store, QueryMsg::GetPost { post_id: 1 }).unwrap();
    let value: PostResponse = post_of(res);
    let expected_output = PostResponse {
        post_data: PostData {
            username: "someguy6".to_string(),
            post_text: "Terra is the best!".to_string(),
            user_likes: vec!["someguy6".to_string()],
        },
    };
    assert_eq!(expected_output, value);

    let info = mock_info("someone", &coins(2, "token"));
    let msg = ExecuteMsg::Post { post_text: "Price of UST is high. Make sure to sell!".to_string() };
    let res = execute(&mut store, info, msg);
    match res {
        Err(ContractError::NotSignedUp {}) => {}
        _ => panic!("Must return a not signed up error!"),
    }

    let info = mock_info("someone", &coins(2, "token"));
    let msg = ExecuteMsg::LikePost { post_id: 1 };
    let res = execute(&mut store, info, msg);
    match res {
        Err(ContractError::NotSignedUp {}) => {}
        _ => panic!("Must return a not signed up error!"),
    }

    let info = mock_info("anyone", &coins(2, "token"));
    let msg = ExecuteMsg::LikePost { post_id: 0 };
    let res = execute(&mut store, info, msg);
    match res {
        Err(ContractError::PostNotAvailable {}) => {}
        _ => panic!("Must return a post not available error!"),
    }
}

#[test]
fn blacklist() {
    let mut store = Store::new();

    let msg = InstantiateMsg { post_count: 0 };
    let info = mock_info("creator", &coins(2, "token"));
    let _res = instantiate(&mut store, info, msg).unwrap();

    let info = mock_info("anyone", &coins(2, "token"));
    let msg = ExecuteMsg::Blacklist { user_addr: "creator".to_string() };
    let res = execute(&mut store, info, msg);
    match res {
        Err(ContractError::Unauthorized {}) => {}
        _ => panic!("Must return an unauthorized error!"),
    }

    let info = mock_info("creator", &coins(2, "token"));
    let msg = ExecuteMsg::Blacklist { user_addr: "anyone".to_string() };
    let res = execute(&mut store, info, msg);
    match res {
        Err(ContractError::UserUnavailable {}) => {}
        _ => panic!("Must return a user unavailable error!"),
    }

    let info = mock_info(">:(", &coins(2, "token"));
    let msg = ExecuteMsg::SignUp { username: "badguy".to_string() };
    let _res = execute(&mut store, info, msg).unwrap();

    let info = mock_info("creator", &coins(2, "token"));
    let msg = ExecuteMsg::Blacklist { user_addr: ">:(".to_string() };
    let _res = execute(&mut store, info, msg).unwrap();

    let res = query(&store, QueryMsg::GetUser { user_addr: ">:(".to_string() }).unwrap();
    let value: UserResponse = user_of(res);
    let expected_output = UserResponse {
        user_data: UserData { username: "badguy".to_string(), blacklist: true },
    };
    assert_eq!(expected_output, value);

    let info = mock_info("user", &coins(2, "token"));
    let msg = ExecuteMsg::SignUp { username: "postguy".to_string() };
    let _res = execute(&mut store, info, msg).unwrap();

    let info = mock_info("user", &coins(2, "token"));
    let msg = ExecuteMsg::Post { post_text: "First Post!".to_string() };
    let _res = execute(&mut store, info, msg).unwrap();

    let info = mock_info(">:(", &coins(2, "token"));
    let msg = ExecuteMsg::LikePost { post_id: 1 };
    let res = execute(&mut store, info, msg);
    match res {
        Err(ContractError::Blacklisted {}) => {}
        _ => panic!("Must return a blacklist error!"),
    }

    let info = mock_info(">:(", &coins(2, "token"));
    let msg = ExecuteMsg::Post { post_text: "I can't post. :(".to_string() };
    let res = execute(&mut store, info, msg);
    match res {
        Err(ContractError::Blacklisted {}) => {}
        _ => panic!("Must return a blacklist error!"),
    }
}

#[test]
fn instantiate_acknowledges_method_and_owner() {
    let mut store = Store::new();
    let res = instantiate(&mut store, mock_info("creator", &[]), InstantiateMsg { post_count: 3 })
        .unwrap();
    assert_eq!(
        res.attributes,
        vec![
            Attribute { key: "method".to_string(), value: "instantiate".to_string() },
            Attribute { key: "owner".to_string(), value: "creator".to_string() },
        ]
    );
    assert!(res.messages.is_empty());
    assert!(res.events.is_empty());
    assert_eq!(res.data, None);
}

#[test]
fn acknowledgements_hold_their_attributes() {
    let res = for_method("try_post");
    assert_eq!(res, Response::new().add_attribute("method", "try_post"));
    assert_eq!(res.attributes.len(), 1);
    assert_eq!(res.attributes[0].key, "method");
    assert_eq!(res.attributes[0].value, "try_post");
    assert_eq!(res.messages.len(), 0);

    let res = for_instantiate("creator");
    assert_eq!(
        res,
        Response::new().add_attribute("method", "instantiate").add_attribute("owner", "creator")
    );
    assert_eq!(res.attributes.len(), 2);
    assert_eq!(res.attributes[1].key, "owner");
    assert_eq!(res.attributes[1].value, "creator");
    assert_eq!(res.messages.len(), 0);
}

#[test]
fn instantiate_makes_the_caller_owner() {
    let mut store = board(17);
    sign_up(&mut store, "anyone", "someguy6");
    let res = try_blacklist(&mut store, mock_info("anyone", &[]), "anyone".to_string());
    assert_eq!(res, Err(ContractError::Unauthorized {}));
    let res = try_blacklist(&mut store, mock_info("creator", &[]), "anyone".to_string());
    assert_eq!(res, Ok(Response::new().add_attribute("method", "try_blacklist")));
}

#[test]
fn handlers_acknowledge_their_method() {
    let mut store = board(0);
    let ack = |method: &str| Response::new().add_attribute("method", method);
    let res = try_sign_up(&mut store, mock_info("a", &[]), "alice".to_string()).unwrap();
    assert_eq!(res, ack("try_sign_up"));
    let res = try_post(&mut store, mock_info("a", &[]), "hello".to_string()).unwrap();
    assert_eq!(res, ack("try_post"));
    let res = try_like_post(&mut store, mock_info("a", &[]), 1).unwrap();
    assert_eq!(res, ack("try_like_post"));
    let res = try_blacklist(&mut store, mock_info("creator", &[]), "a".to_string()).unwrap();
    assert_eq!(res, ack("try_blacklist"));
}

#[test]
fn second_sign_up_keeps_first_username() {
    let mut store = board(0);
    sign_up(&mut store, "a", "first");
    let res = try_sign_up(&mut store, mock_info("a", &[]), "second".to_string());
    assert_eq!(res, Err(ContractError::AlreadyHaveAccount {}));
    let user = query_user(&store, "a".to_string()).unwrap();
    assert_eq!(user.user_data, UserData { username: "first".to_string(), blacklist: false });
}

#[test]
fn two_addresses_may_share_a_username() {
    let mut store = board(0);
    sign_up(&mut store, "a", "same");
    sign_up(&mut store, "b", "same");
    assert_eq!(query_user(&store, "a".to_string()).unwrap().user_data.username, "same");
    assert_eq!(query_user(&store, "b".to_string()).unwrap().user_data.username, "same");
}

#[test]
fn sign_up_needs_no_board() {
    let mut store = Store::new();
    sign_up(&mut store, "a", "alice");
    assert_eq!(
        query_user(&store, "a".to_string()).unwrap().user_data,
        UserData { username: "alice".to_string(), blacklist: false }
    );
}

#[test]
fn posts_are_numbered_from_one() {
    let mut store = board(0);
    sign_up(&mut store, "a", "alice");
    for n in 1..=5u64 {
        try_post(&mut store, mock_info("a", &[]), format!("text {}", n)).unwrap();
        assert_eq!(query_count(&store).unwrap().post_count, n);
        let post = query_post(&store, n).unwrap().post_data;
        assert_eq!(
            post,
            PostData {
                username: "alice".to_string(),
                post_text: format!("text {}", n),
                user_likes: vec![],
            }
        );
        assert_eq!(
            query_post(&store, n + 1),
            Err(StdError::NotFound { kind: RecordKind::PostData })
        );
    }
    for n in 1..=5u64 {
        assert_eq!(query_post(&store, n).unwrap().post_data.post_text, format!("text {}", n));
    }
    assert_eq!(query_post(&store, 0), Err(StdError::NotFound { kind: RecordKind::PostData }));
}

#[test]
fn posts_follow_a_seeded_count() {
    let mut store = board(17);
    sign_up(&mut store, "a", "alice");
    try_post(&mut store, mock_info("a", &[]), "hello".to_string()).unwrap();
    assert_eq!(query_count(&store).unwrap().post_count, 18);
    assert_eq!(query_post(&store, 18).unwrap().post_data.post_text, "hello");
    assert_eq!(query_post(&store, 1), Err(StdError::NotFound { kind: RecordKind::PostData }));
    assert_eq!(query_post(&store, 17), Err(StdError::NotFound { kind: RecordKind::PostData }));
}

#[test]
fn refused_post_changes_nothing() {
    let mut store = board(0);
    sign_up(&mut store, "bad", "badguy");
    try_blacklist(&mut store, mock_info("creator", &[]), "bad".to_string()).unwrap();

    let res = try_post(&mut store, mock_info("nobody", &[]), "x".to_string());
    assert_eq!(res, Err(ContractError::NotSignedUp {}));
    assert_eq!(query_count(&store).unwrap().post_count, 0);
    assert_eq!(query_post(&store, 1), Err(StdError::NotFound { kind: RecordKind::PostData }));

    let res = try_post(&mut store, mock_info("bad", &[]), "x".to_string());
    assert_eq!(res, Err(ContractError::Blacklisted {}));
    assert_eq!(query_count(&store).unwrap().post_count, 0);
    assert_eq!(query_post(&store, 1), Err(StdError::NotFound { kind: RecordKind::PostData }));
}

#[test]
fn post_on_a_store_without_board_fails() {
    let mut store = Store::new();
    sign_up(&mut store, "a", "alice");
    let res = try_post(&mut store, mock_info("a", &[]), "x".to_string());
    assert_eq!(res, Err(ContractError::Std(StdError::NotFound { kind: RecordKind::State })));
    let res = try_post(&mut store, mock_info("nobody", &[]), "x".to_string());
    assert_eq!(res, Err(ContractError::Std(StdError::NotFound { kind: RecordKind::State })));
    let res = try_blacklist(&mut store, mock_info("a", &[]), "a".to_string());
    assert_eq!(res, Err(ContractError::Std(StdError::NotFound { kind: RecordKind::State })));
    assert_eq!(query_count(&store), Err(StdError::NotFound { kind: RecordKind::State }));
}

#[test]
fn likes_accumulate_in_order() {
    let mut store = board(0);
    sign_up(&mut store, "a", "alice");
    sign_up(&mut store, "u1", "first");
    sign_up(&mut store, "u2", "second");
    try_post(&mut store, mock_info("a", &[]), "hello".to_string()).unwrap();
    try_like_post(&mut store, mock_info("u1", &[]), 1).unwrap();
    try_like_post(&mut store, mock_info("u2", &[]), 1).unwrap();
    let post = query_post(&store, 1).unwrap().post_data;
    assert_eq!(post.user_likes, vec!["first".to_string(), "second".to_string()]);
    assert_eq!(post.username, "alice");
    assert_eq!(post.post_text, "hello");
}

#[test]
fn a_like_may_be_repeated() {
    let mut store = board(0);
    sign_up(&mut store, "a", "alice");
    try_post(&mut store, mock_info("a", &[]), "hello".to_string()).unwrap();
    try_like_post(&mut store, mock_info("a", &[]), 1).unwrap();
    try_like_post(&mut store, mock_info("a", &[]), 1).unwrap();
    let post = query_post(&store, 1).unwrap().post_data;
    assert_eq!(post.user_likes, vec!["alice".to_string(), "alice".to_string()]);
}

#[test]
fn like_of_missing_post_changes_nothing() {
    let mut store = board(0);
    sign_up(&mut store, "a", "alice");
    try_post(&mut store, mock_info("a", &[]), "hello".to_string()).unwrap();
    let res = try_like_post(&mut store, mock_info("a", &[]), 2);
    assert_eq!(res, Err(ContractError::PostNotAvailable {}));
    assert_eq!(query_count(&store).unwrap().post_count, 1);
    assert_eq!(query_post(&store, 1).unwrap().post_data.user_likes, Vec::<String>::new());
    assert_eq!(query_post(&store, 2), Err(StdError::NotFound { kind: RecordKind::PostData }));
}

#[test]
fn like_tests_the_caller_before_the_post() {
    let mut store = board(0);
    sign_up(&mut store, "bad", "badguy");
    try_blacklist(&mut store, mock_info("creator", &[]), "bad".to_string()).unwrap();
    let res = try_like_post(&mut store, mock_info("nobody", &[]), 99);
    assert_eq!(res, Err(ContractError::NotSignedUp {}));
    let res = try_like_post(&mut store, mock_info("bad", &[]), 99);
    assert_eq!(res, Err(ContractError::Blacklisted {}));
}

#[test]
fn blacklist_keeps_the_username() {
    let mut store = board(0);
    sign_up(&mut store, "bad", "badguy");
    try_blacklist(&mut store, mock_info("creator", &[]), "bad".to_string()).unwrap();
    try_blacklist(&mut store, mock_info("creator", &[]), "bad".to_string()).unwrap();
    assert_eq!(
        query_user(&store, "bad".to_string()).unwrap().user_data,
        UserData { username: "badguy".to_string(), blacklist: true }
    );
}

#[test]
fn owner_may_blacklist_itself() {
    let mut store = board(0);
    sign_up(&mut store, "creator", "boss");
    try_post(&mut store, mock_info("creator", &[]), "one".to_string()).unwrap();
    try_blacklist(&mut store, mock_info("creator", &[]), "creator".to_string()).unwrap();
    let res = try_post(&mut store, mock_info("creator", &[]), "two".to_string());
    assert_eq!(res, Err(ContractError::Blacklisted {}));
    assert_eq!(query_count(&store).unwrap().post_count, 1);
}

#[test]
fn queries_repeat() {
    let mut store = board(0);
    sign_up(&mut store, "a", "alice");
    try_post(&mut store, mock_info("a", &[]), "hello".to_string()).unwrap();
    let first = query(&store, QueryMsg::GetCount {});
    let second = query(&store, QueryMsg::GetCount {});
    assert_eq!(first, second);
    assert_eq!(first, Ok(QueryResponse::Count(CountResponse { post_count: 1 })));
    let first = query(&store, QueryMsg::GetPost { post_id: 1 });
    let second = query(&store, QueryMsg::GetPost { post_id: 1 });
    assert_eq!(first, second);
    let first = query(&store, QueryMsg::GetUser { user_addr: "a".to_string() });
    let second = query(&store, QueryMsg::GetUser { user_addr: "a".to_string() });
    assert_eq!(first, second);
    let first = query(&store, QueryMsg::GetUser { user_addr: "b".to_string() });
    let second = query(&store, QueryMsg::GetUser { user_addr: "b".to_string() });
    assert_eq!(first, second);
    assert_eq!(first, Err(StdError::NotFound { kind: RecordKind::UserData }));
}

#[test]
fn queries_fail_on_missing_records() {
    let store = Store::new();
    assert_eq!(
        query(&store, QueryMsg::GetCount {}),
        Err(StdError::NotFound { kind: RecordKind::State })
    );
    assert_eq!(
        query(&store, QueryMsg::GetPost { post_id: 1 }),
        Err(StdError::NotFound { kind: RecordKind::PostData })
    );
    assert_eq!(
        query(&store, QueryMsg::GetUser { user_addr: "a".to_string() }),
        Err(StdError::NotFound { kind: RecordKind::UserData })
    );
}

#[test]
fn end_to_end() {
    let mut store = board(0);
    sign_up(&mut store, "A", "alice");
    execute(&mut store, mock_info("A", &[]), ExecuteMsg::Post { post_text: "hello".to_string() })
        .unwrap();
    let post = post_of(query(&store, QueryMsg::GetPost { post_id: 1 }).unwrap());
    assert_eq!(
        post.post_data,
        PostData {
            username: "alice".to_string(),
            post_text: "hello".to_string(),
            user_likes: vec![],
        }
    );
    execute(&mut store, mock_info("A", &[]), ExecuteMsg::LikePost { post_id: 1 }).unwrap();
    let post = post_of(query(&store, QueryMsg::GetPost { post_id: 1 }).unwrap());
    assert_eq!(post.post_data.user_likes, vec!["alice".to_string()]);
}

#[test]
fn store_reads_what_was_written() {
    let mut store = Store::new();
    assert!(store.load_state().is_none());
    assert!(store.may_load_user("a").is_none());
    assert!(store.may_load_post(1).is_none());
    store.save_state(State { post_count: 4, owner: "o".to_string() });
    store.save_user("a".to_string(), UserData { username: "alice".to_string(), blacklist: false });
    store.save_post(
        4,
        PostData { username: "alice".to_string(), post_text: "t".to_string(), user_likes: vec![] },
    );
    assert_eq!(store.load_state(), Some(&State { post_count: 4, owner: "o".to_string() }));
    assert_eq!(
        store.may_load_user("a"),
        Some(&UserData { username: "alice".to_string(), blacklist: false })
    );
    assert_eq!(store.may_load_post(4).unwrap().post_text, "t");
    assert!(store.may_load_post(5).is_none());
    store.save_user("a".to_string(), UserData { username: "other".to_string(), blacklist: true });
    assert_eq!(store.may_load_user("a").unwrap().username, "other");
}

#[test]
fn rules_on_records() {
    let good = UserData { username: "alice".to_string(), blacklist: false };
    let bad = UserData { username: "mallory".to_string(), blacklist: true };
    assert_eq!(check_member(Some(&good)), Ok(()));
    assert_eq!(check_member(Some(&bad)), Err(ContractError::Blacklisted {}));
    assert_eq!(check_member(None), Err(ContractError::NotSignedUp {}));

    assert_eq!(
        new_account(None, "bob".to_string()),
        Ok(UserData { username: "bob".to_string(), blacklist: false })
    );
    assert_eq!(
        new_account(Some(&good), "bob".to_string()),
        Err(ContractError::AlreadyHaveAccount {})
    );

    let state = State { post_count: 41, owner: "creator".to_string() };
    let (next, post) = next_post(&state, &good, "hi".to_string());
    assert_eq!(next, State { post_count: 42, owner: "creator".to_string() });
    assert_eq!(
        post,
        PostData { username: "alice".to_string(), post_text: "hi".to_string(), user_likes: vec![] }
    );

    let liked = add_like(&post, &bad);
    assert_eq!(liked.user_likes, vec!["mallory".to_string()]);
    assert_eq!(liked.username, "alice");
    assert_eq!(liked.post_text, "hi");
    let liked = add_like(&liked, &good);
    assert_eq!(liked.user_likes, vec!["mallory".to_string(), "alice".to_string()]);

    assert!(is_owner(&state, &"creator".to_string()));
    assert!(!is_owner(&state, &"Creator".to_string()));
    assert_eq!(
        revoke(&state, &"creator".to_string(), Some(&good)),
        Ok(UserData { username: "alice".to_string(), blacklist: true })
    );
    assert_eq!(
        revoke(&state, &"creator".to_string(), None),
        Err(ContractError::UserUnavailable {})
    );
    assert_eq!(revoke(&state, &"x".to_string(), Some(&good)), Err(ContractError::Unauthorized {}));
    assert_eq!(revoke(&state, &"x".to_string(), None), Err(ContractError::Unauthorized {}));
}

#[test]
fn failures_as_text() {
    assert_eq!(ContractError::Unauthorized {}.message(), "Unauthorized");
    assert_eq!(
        ContractError::NotSignedUp {}.message(),
        "Please sign up to perform actions on the message board."
    );
    assert_eq!(
        ContractError::AlreadyHaveAccount {}.message(),
        "Please sign in with your existing account."
    );
    assert_eq!(
        ContractError::Blacklisted {}.message(),
        "We apologize. It seems that you are not allowed to create a post."
    );
    assert_eq!(
        ContractError::PostNotAvailable {}.message(),
        "We apologize. This post is not available."
    );
    assert_eq!(
        ContractError::UserUnavailable {}.message(),
        "The inputted Address does not correspond to an active user."
    );
    assert_eq!(
        ContractError::Std(StdError::NotFound { kind: RecordKind::State }).message(),
        "State not found"
    );
    assert_eq!(
        ContractError::Std(StdError::NotFound { kind: RecordKind::PostData }).message(),
        "PostData not found"
    );
    assert_eq!(
        ContractError::Std(StdError::NotFound { kind: RecordKind::UserData }).message(),
        "UserData not found"
    );
}

#[test]
fn records_clone_to_equal_records() {
    let post = PostData {
        username: "a".to_string(),
        post_text: "t".to_string(),
        user_likes: vec!["x".to_string(), "y".to_string()],
    };
    assert_eq!(post.clone(), post);
    let user = UserData { username: "a".to_string(), blacklist: true };
    assert_eq!(user.clone(), user);
    let state = State { post_count: 9, owner: "o".to_string() };
    assert_eq!(state.clone(), state);
}

#[test]
fn post_keys_are_decimal() {
    assert_eq!(post_key(0), "0");
    assert_eq!(post_key(7), "7");
    assert_eq!(post_key(10), "10");
    assert_eq!(post_key(18), "18");
    assert_eq!(post_key(1203), "1203");
    assert_eq!(post_key(u64::MAX), "18446744073709551615");
    for n in 0..2000u64 {
        assert_eq!(post_key(n), n.to_string());
    }
}

#[test]
fn plans_on_records() {
    let good = UserData { username: "alice".to_string(), blacklist: false };
    let bad = UserData { username: "mallory".to_string(), blacklist: true };
    let state = State { post_count: 6, owner: "creator".to_string() };
    let missing_state = ContractError::Std(StdError::NotFound { kind: RecordKind::State });

    assert_eq!(
        plan_post(Some(&state), Some(&good), "hi".to_string()),
        Ok((
            State { post_count: 7, owner: "creator".to_string() },
            PostData {
                username: "alice".to_string(),
                post_text: "hi".to_string(),
                user_likes: vec![],
            },
        ))
    );
    assert_eq!(
        plan_post(Some(&state), Some(&bad), "hi".to_string()),
        Err(ContractError::Blacklisted {})
    );
    assert_eq!(plan_post(Some(&state), None, "hi".to_string()), Err(ContractError::NotSignedUp {}));
    assert_eq!(plan_post(None, Some(&good), "hi".to_string()), Err(missing_state));
    assert_eq!(plan_post(None, None, "hi".to_string()), Err(missing_state));

    let post = PostData {
        username: "bob".to_string(),
        post_text: "t".to_string(),
        user_likes: vec!["carol".to_string()],
    };
    assert_eq!(
        plan_like(Some(&good), Some(&post)),
        Ok(PostData {
            username: "bob".to_string(),
            post_text: "t".to_string(),
            user_likes: vec!["carol".to_string(), "alice".to_string()],
        })
    );
    assert_eq!(plan_like(Some(&good), None), Err(ContractError::PostNotAvailable {}));
    assert_eq!(plan_like(Some(&bad), Some(&post)), Err(ContractError::Blacklisted {}));
    assert_eq!(plan_like(Some(&bad), None), Err(ContractError::Blacklisted {}));
    assert_eq!(plan_like(None, Some(&post)), Err(ContractError::NotSignedUp {}));
    assert_eq!(plan_like(None, None), Err(ContractError::NotSignedUp {}));
}
