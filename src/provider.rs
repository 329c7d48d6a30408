use crate::error::AuthError;
use vstd::prelude::*;
use vstd::string::*;

verus! {

/// Whether an HTTP status is a success (2xx).
pub open spec fn success_status(status: u16) -> bool {
    200 <= status <= 299
}

/// Whether a failed exchange's HTTP status asks for a later retry: rate
/// limiting (429) or a server error (5xx).
pub open spec fn transient_status(status: u16) -> bool {
    status == 429 || 500 <= status <= 599
}

/// The messages joined by ", ".
pub open spec fn join_messages(m: Seq<Seq<char>>) -> Seq<char>
    decreases m.len(),
{
    if m.len() == 0 {
        Seq::empty()
    } else if m.len() == 1 {
        m[0]
    } else {
        join_messages(m.drop_last()) + ", "@ + m.last()
    }
}

pub open spec fn messages_view(v: Seq<String>) -> Seq<Seq<char>> {
    v.map_values(|s: String| s@)
}

/// The error for a failed token exchange: transient when the endpoint
/// answered with a rate limit or a server error, a hard failure otherwise.
pub fn exchange_error(status: Option<u16>, detail: String) -> (r: AuthError)
    ensures
        match status {
            Some(s) => if transient_status(s) {
                r == AuthError::Transient(detail)
            } else {
                r == AuthError::TokenExchangeFailed(detail)
            },
            None => r == AuthError::TokenExchangeFailed(detail),
        },
{
    match status {
        Some(s) => if s == 429 || (500 <= s && s <= 599) {
            AuthError::Transient(detail)
        } else {
            AuthError::TokenExchangeFailed(detail)
        },
        None => AuthError::TokenExchangeFailed(detail),
    }
}

/// The messages joined by ", ".
pub fn join(messages: &Vec<String>) -> (r: String)
    ensures
        r@ == join_messages(messages_view(messages@)),
{
    let ghost all = messages_view(messages@);
    let mut out = String::new();
    let mut i: usize = 0;
    while i < messages.len()
        invariant
            i <= messages@.len(),
            all == messages_view(messages@),
            out@ == join_messages(all.subrange(0, i as int)),
        decreases messages.len() - i,
    {
        let ghost prefix = all.subrange(0, i as int + 1);
        assert(prefix.drop_last() =~= all.subrange(0, i as int));
        if i == 0 {
            out = messages[i].clone();
        } else {
            out = out.concat(", ").concat(messages[i].as_str());
        }
        i = i + 1;
    }
    assert(all.subrange(0, i as int) =~= all);
    out
}

/// What the identity query's response gives: the user id when the status is
/// a success, the response's `errors` array has no entry (`error_count` is
/// its length, 0 when there is none) and it names a viewer id within range;
/// otherwise the reason it does not. `error_messages` are the entries'
/// messages that are strings.
pub fn identity_outcome(
    status: u16,
    error_count: usize,
    error_messages: &Vec<String>,
    viewer_id: Option<i64>,
) -> (r: Result<i32, String>)
    ensures
        !success_status(status) ==> r is Err,
        success_status(status) && error_count > 0 ==> (r matches Err(d) && d@ == "GraphQL error: "@
            + join_messages(messages_view(error_messages@))),
        success_status(status) && error_count == 0 ==> match viewer_id {
            Some(id) => if i32::MIN <= id <= i32::MAX {
                r == Ok::<i32, String>(id as i32)
            } else {
                r is Err
            },
            None => r is Err,
        },
{
    if !(200 <= status && status <= 299) {
        return Err(String::from_str("API error: HTTP ").concat(status.to_string().as_str()));
    }
    if error_count > 0 {
        return Err(String::from_str("GraphQL error: ").concat(join(error_messages).as_str()));
    }
    match viewer_id {
        Some(id) => if i32::MIN as i64 <= id && id <= i32::MAX as i64 {
            Ok(id as i32)
        } else {
            Err(String::from_str("user ID out of range"))
        },
        None => Err(String::from_str("Failed to extract user ID from response")),
    }
}

} // verus!
