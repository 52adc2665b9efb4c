//! The acknowledgement of a call that went through: a `Response` of
//! `cosmwasm_std`, built by that crate and described here by what it holds.

use vstd::prelude::*;
use cosmwasm_std::Response;

verus! {

/// `cosmwasm_std::Empty`, the custom message of a board that has none.
#[verifier::external_type_specification]
#[verifier::external_body]
pub struct ExEmpty(cosmwasm_std::Empty);

/// `cosmwasm_std::Response`, carried through as it is.
#[verifier::external_type_specification]
#[verifier::external_body]
#[verifier::reject_recursive_types(T)]
pub struct ExResponse<T>(cosmwasm_std::Response<T>);

/// The attributes that a response holds, in their order, each as its key and
/// its value.
pub uninterp spec fn response_attributes(r: Response) -> Seq<(Seq<char>, Seq<char>)>;

/// The number of messages that a response holds.
pub uninterp spec fn response_message_count(r: Response) -> nat;

/// `Response::new` of `cosmwasm_std`: the response it makes holds no
/// attribute and no message.
#[verifier::external_body]
fn new_response() -> (r: Response)
    ensures
        response_attributes(r) == Seq::<(Seq<char>, Seq<char>)>::empty(),
        response_message_count(r) == 0,
{
    Response::new()
}

/// `Response::add_attribute` of `cosmwasm_std`: the response comes back with
/// the pair of `key` and `value` pushed onto its attributes and its messages
/// untouched. A key that begins with an underscore is reserved, and a debug
/// build panics on it, so such keys are left out.
#[verifier::external_body]
fn add_attribute(r: Response, key: &str, value: &str) -> (res: Response)
    requires
        key@.len() > 0 ==> key@[0] != '_',
    ensures
        response_attributes(res) == response_attributes(r).push((key@, value@)),
        response_message_count(res) == response_message_count(r),
{
    r.add_attribute(key, value)
}

/// Whether `r` carries exactly `attributes`, in this order, and no message.
pub open spec fn acknowledges(r: Response, attributes: Seq<(Seq<char>, Seq<char>)>) -> bool {
    response_attributes(r) == attributes && response_message_count(r) == 0
}

/// The attributes by which the handler called `method` reports itself.
pub open spec fn method_attributes(method: Seq<char>) -> Seq<(Seq<char>, Seq<char>)> {
    seq![("method"@, method)]
}

/// The attributes by which the set-up of a board reports itself and the owner.
pub open spec fn instantiate_attributes(owner: Seq<char>) -> Seq<(Seq<char>, Seq<char>)> {
    seq![("method"@, "instantiate"@), ("owner"@, owner)]
}

/// The acknowledgement of the handler called `method`.
pub fn for_method(method: &str) -> (res: Response)
    ensures
        acknowledges(res, method_attributes(method@)),
{
    proof {
        reveal_strlit("method");
    }
    let res = add_attribute(new_response(), "method", method);
    assert(response_attributes(res) =~= method_attributes(method@));
    res
}

/// The acknowledgement of the set-up of a board owned by `owner`.
pub fn for_instantiate(owner: &str) -> (res: Response)
    ensures
        acknowledges(res, instantiate_attributes(owner@)),
{
    proof {
        reveal_strlit("method");
        reveal_strlit("owner");
    }
    let res = add_attribute(for_method("instantiate"), "owner", owner);
    assert(response_attributes(res) =~= instantiate_attributes(owner@));
    res
}

} // verus!
