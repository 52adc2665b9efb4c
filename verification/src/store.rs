//! The store that the board lives in: one slot for the global record, the
//! accounts by address and the posts by the decimal of their number.

use vstd::hash_map::StringHashMap;
use vstd::prelude::*;
use crate::keys::{post_key, post_key_spec};
use crate::model::{post_at, user_at, BoardView};
use crate::state::{PostData, State, UserData};

verus! {

/// A store of records. Its handlers read and write it record by record;
/// nothing else reaches inside.
pub struct Store {
    state: Option<State>,
    users: StringHashMap<UserData>,
    posts: StringHashMap<PostData>,
}

impl View for Store {
    type V = BoardView;

    closed spec fn view(&self) -> BoardView {
        BoardView {
            state: match self.state {
                Some(s) => Some(s@),
                None => None,
            },
            users: self.users@.map_values(|u: UserData| u@),
            posts: self.posts@.map_values(|p: PostData| p@),
        }
    }
}

impl Store {
    /// A store that holds nothing.
    pub fn new() -> (res: Store)
        ensures
            res@ == BoardView::empty(),
    {
        let res = Store { state: None, users: StringHashMap::new(), posts: StringHashMap::new() };
        assert(res@.users =~= Map::empty());
        assert(res@.posts =~= Map::empty());
        res
    }

    /// The global record, if the board was set up.
    pub fn load_state(&self) -> (res: Option<&State>)
        ensures
            match res {
                Some(s) => self@.state == Some(s@),
                None => self@.state is None,
            },
    {
        self.state.as_ref()
    }

    /// Puts `state` in the place of the global record.
    pub fn save_state(&mut self, state: State)
        ensures
            final(self)@ == old(self)@.put_state(state@),
    {
        self.state = Some(state);
    }

    /// The account of `addr`, if it has one.
    pub fn may_load_user(&self, addr: &str) -> (res: Option<&UserData>)
        ensures
            match res {
                Some(u) => user_at(self@, addr@) == Some(u@),
                None => user_at(self@, addr@) is None,
            },
    {
        self.users.get(addr)
    }

    /// Stores `user` as the account of `addr`, in the place of any other.
    pub fn save_user(&mut self, addr: String, user: UserData)
        ensures
            final(self)@ == old(self)@.put_user(addr@, user@),
    {
        self.users.insert(addr, user);
        assert(self@.users =~= old(self)@.users.insert(addr@, user@));
    }

    /// The post numbered `id`, if there is one.
    pub fn may_load_post(&self, id: u64) -> (res: Option<&PostData>)
        ensures
            match res {
                Some(p) => post_at(self@, id) == Some(p@),
                None => post_at(self@, id) is None,
            },
    {
        let key = post_key(id);
        self.posts.get(key.as_str())
    }

    /// Stores `post` under the number `id`, in the place of any other.
    pub fn save_post(&mut self, id: u64, post: PostData)
        ensures
            final(self)@ == old(self)@.put_post(id, post@),
    {
        self.posts.insert(post_key(id), post);
        assert(self@.posts =~= old(self)@.posts.insert(post_key_spec(id), post@));
    }
}

} // verus!
