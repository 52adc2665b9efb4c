//! The failures that a call on the board can end in.

use vstd::prelude::*;

verus! {

/// The kind of record that a store was asked for.
#[derive(Clone, Copy, Debug, PartialEq, Eq, Structural)]
pub enum RecordKind {
    State,
    PostData,
    UserData,
}

/// A failure of the store itself.
#[derive(Clone, Copy, Debug, PartialEq, Eq, Structural)]
pub enum StdError {
    /// The store holds no record of this kind under the key.
    NotFound { kind: RecordKind },
}

/// Why a call was turned down. Each failure ends the call with the store
/// unchanged.
#[derive(Clone, Copy, Debug, PartialEq, Eq, Structural)]
pub enum ContractError {
    /// The store failed; handed on as it came.
    Std(StdError),
    /// The caller is not the board's owner.
    Unauthorized {},
    /// The caller has no account.
    NotSignedUp {},
    /// The caller already has an account.
    AlreadyHaveAccount {},
    /// The caller's rights were revoked.
    Blacklisted {},
    /// No post has this number.
    PostNotAvailable {},
    /// The address has no account.
    UserUnavailable {},
}

impl ContractError {
    /// The sentence that tells a user of the failure.
    pub open spec fn message_spec(self) -> Seq<char> {
        match self {
            ContractError::Std(StdError::NotFound { kind: RecordKind::State }) =>
                "State not found"@,
            ContractError::Std(StdError::NotFound { kind: RecordKind::PostData }) =>
                "PostData not found"@,
            ContractError::Std(StdError::NotFound { kind: RecordKind::UserData }) =>
                "UserData not found"@,
            ContractError::Unauthorized {  } => "Unauthorized"@,
            ContractError::NotSignedUp {  } =>
                "Please sign up to perform actions on the message board."@,
            ContractError::AlreadyHaveAccount {  } =>
                "Please sign in with your existing account."@,
            ContractError::Blacklisted {  } =>
                "We apologize. It seems that you are not allowed to create a post."@,
            ContractError::PostNotAvailable {  } => "We apologize. This post is not available."@,
            ContractError::UserUnavailable {  } =>
                "The inputted Address does not correspond to an active user."@,
        }
    }

    /// The failure as text.
    pub fn message(&self) -> (res: String)
        ensures
            res@ == self.message_spec(),
    {
        match self {
            ContractError::Std(StdError::NotFound { kind: RecordKind::State }) =>
                "State not found".to_owned(),
            ContractError::Std(StdError::NotFound { kind: RecordKind::PostData }) =>
                "PostData not found".to_owned(),
            ContractError::Std(StdError::NotFound { kind: RecordKind::UserData }) =>
                "UserData not found".to_owned(),
            ContractError::Unauthorized {  } => "Unauthorized".to_owned(),
            ContractError::NotSignedUp {  } =>
                "Please sign up to perform actions on the message board.".to_owned(),
            ContractError::AlreadyHaveAccount {  } =>
                "Please sign in with your existing account.".to_owned(),
            ContractError::Blacklisted {  } =>
                "We apologize. It seems that you are not allowed to create a post.".to_owned(),
            ContractError::PostNotAvailable {  } =>
                "We apologize. This post is not available.".to_owned(),
            ContractError::UserUnavailable {  } =>
                "The inputted Address does not correspond to an active user.".to_owned(),
        }
    }
}

} // verus!
