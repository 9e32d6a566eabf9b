//! The delete flow: a composite `identifier/token` argument is split on its
//! first `/` before any request is made.

use crate::error::{ErrorView, TransferError};
use vstd::prelude::*;
use vstd::string::*;

verus! {

/// The character that separates the identifier from the deletion token.
pub open spec fn separator() -> char {
    '/'
}

/// Splits `param` on its first `/`.
///
/// The identifier is everything before that `/` and holds no `/` itself; the
/// token is everything after it and may hold more. Without a `/` there is
/// nothing to split.
pub fn parse_delete_param<'a>(param: &'a str) -> (parts: Option<(&'a str, &'a str)>)
    ensures
        parts is Some <==> param@.contains(separator()),
        parts matches Some((identifier, token)) ==> {
            &&& !identifier@.contains(separator())
            &&& param@ == identifier@ + seq![separator()] + token@
        },
{
    let n: usize = param.unicode_len();
    let mut i: usize = 0;
    for c in it: param.chars()
        invariant
            i == it.index(),
            n == param@.len(),
            it.seq() == param@,
            forall|j: int| 0 <= j < i ==> param@[j] != separator(),
    {
        if c == '/' {
            let identifier = param.substring_char(0, i);
            let token = param.substring_char(i + 1, n);
            assert(param@ =~= identifier@ + seq![separator()] + token@);
            assert(param@[i as int] == separator());
            return Some((identifier, token));
        }
        i += 1;
    }
    None
}

/// A split is the only one: whatever cuts `param` at a `/` with no `/` before
/// it cuts at the same place.
pub proof fn lemma_split_is_unique(
    param: Seq<char>,
    identifier: Seq<char>,
    token: Seq<char>,
    other_identifier: Seq<char>,
    other_token: Seq<char>,
)
    requires
        !identifier.contains(separator()),
        !other_identifier.contains(separator()),
        param == identifier + seq![separator()] + token,
        param == other_identifier + seq![separator()] + other_token,
    ensures
        identifier == other_identifier,
        token == other_token,
{
    let a = identifier.len() as int;
    let b = other_identifier.len() as int;
    assert(param[a] == separator());
    assert(param[b] == separator());
    if a < b {
        assert(other_identifier[a] == param[a]);
        assert(other_identifier.contains(separator()));
    }
    if b < a {
        assert(identifier[b] == param[b]);
        assert(identifier.contains(separator()));
    }
    assert(identifier =~= param.subrange(0, a));
    assert(other_identifier =~= param.subrange(0, b));
    assert(token =~= param.subrange(a + 1, param.len() as int));
    assert(other_token =~= param.subrange(b + 1, param.len() as int));
}

/// What a delete request is, seen from a contract.
pub struct DeleteRequestView {
    pub identifier: Seq<char>,
    pub deletion_token: Seq<char>,
}

/// A file to delete: its identifier and the deletion token issued with it.
#[derive(Clone, Debug, PartialEq, Eq)]
pub struct DeleteRequest {
    identifier: String,
    deletion_token: String,
}

impl View for DeleteRequest {
    type V = DeleteRequestView;

    closed spec fn view(&self) -> DeleteRequestView {
        DeleteRequestView { identifier: self.identifier@, deletion_token: self.deletion_token@ }
    }
}

impl DeleteRequest {
    /// Reads a request from the composite argument `identifier/token`.
    ///
    /// An argument without a `/` is an `InvalidArgument`; any other argument
    /// is cut at its first `/`.
    pub fn parse(param: &str) -> (request: Result<DeleteRequest, TransferError>)
        ensures
            request is Ok <==> param@.contains(separator()),
            request matches Ok(parsed) ==> {
                &&& !parsed@.identifier.contains(separator())
                &&& param@ == parsed@.identifier + seq![separator()] + parsed@.deletion_token
            },
            request matches Err(error) ==> error@ == ErrorView::InvalidArgument,
    {
        match parse_delete_param(param) {
            Some((identifier, token)) => Ok(
                DeleteRequest {
                    identifier: identifier.to_owned(),
                    deletion_token: token.to_owned(),
                },
            ),
            None => Err(TransferError::InvalidArgument),
        }
    }

    /// The identifier of the file.
    pub fn identifier(&self) -> (text: &str)
        ensures
            text@ == self@.identifier,
    {
        self.identifier.as_str()
    }

    /// The token that authorises the deletion.
    pub fn deletion_token(&self) -> (text: &str)
        ensures
            text@ == self@.deletion_token,
    {
        self.deletion_token.as_str()
    }
}

/// Whether `outcome` is what the client owes for the transport's answer
/// `response` to one delete call: success for success, and for a failure a
/// `TransportError` with the transport's own message.
pub open spec fn reports(response: Result<(), String>, outcome: Result<(), TransferError>) -> bool {
    match response {
        Ok(_) => outcome is Ok,
        Err(message) => outcome matches Err(error) && error@ == ErrorView::TransportError(
            message@,
        ),
    }
}

/// Turns the transport's answer to one delete call into the client's result.
pub fn delete_outcome(response: Result<(), String>) -> (outcome: Result<(), TransferError>)
    ensures
        reports(response, outcome),
{
    match response {
        Ok(()) => Ok(()),
        Err(message) => Err(TransferError::TransportError(message)),
    }
}

/// Deleting twice is two calls, each reported by its own answer: what the
/// first call returned has no part in what is reported for the second. A
/// second call that the service rejects is reported as that rejection, with
/// its message, also after a first call that succeeded.
pub proof fn lemma_second_delete_is_not_masked(
    first: Result<(), String>,
    first_outcome: Result<(), TransferError>,
    second: Result<(), String>,
    second_outcome: Result<(), TransferError>,
)
    requires
        reports(first, first_outcome),
        reports(second, second_outcome),
    ensures
        second_outcome is Ok <==> second is Ok,
        second matches Err(message) ==> second_outcome matches Err(error) && error@.message()
            == message@,
        first is Ok && second is Err ==> first_outcome is Ok && second_outcome is Err,
{
}

} // verus!
