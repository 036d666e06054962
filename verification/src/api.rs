//! The decisions of the bools API: which index a request may touch, what a
//! request body means, and what a read or a write gives.
use vstd::prelude::*;

use crate::error::UserError;
use crate::model::User;
use crate::vecbit::{bit_is_set, bits_of, get_bit, get_bits, set_bit, with_bit};

verus! {

/// The message of a request body that is not a bool.
pub open spec fn bad_bool_text() -> Seq<char> {
    "expected true, false, 1, or 0"@
}

/// Whether the API lets a request touch bool `index`: bools 0 to 62.
pub open spec fn api_index_ok(index: int) -> bool {
    0 <= index < 63
}

/// The body of a request that writes a bool, as far as it matters: a JSON
/// bool, a JSON number (with its value when it is a non-negative integer
/// that fits in a `u64`), or anything else.
#[derive(Debug, Clone, Copy)]
pub enum BoolBody {
    Bool(bool),
    Number(Option<u64>),
    Other,
}

/// Reads the bool a request body asks for: a JSON bool as it is, a
/// non-negative integer as "not zero", anything else is a bad request.
pub fn parse_bool_body(body: BoolBody) -> (r: Result<bool, UserError>)
    ensures
        body matches BoolBody::Bool(v) ==> r == Ok::<bool, UserError>(v),
        body matches BoolBody::Number(Some(n)) ==> r == Ok::<bool, UserError>(n != 0),
        body matches BoolBody::Number(None) ==> (r matches Err(UserError::BadRequest(t)) && t@
            == bad_bool_text()),
        body is Other ==> (r matches Err(UserError::BadRequest(t)) && t@ == bad_bool_text()),
{
    match body {
        BoolBody::Bool(v) => Ok(v),
        BoolBody::Number(Some(n)) => Ok(n != 0),
        _ => Err(UserError::BadRequest(String::from_str("expected true, false, 1, or 0"))),
    }
}

/// The bool a request body asks for, or `None` for a body that is not a
/// bool.
pub open spec fn body_value(body: BoolBody) -> Option<bool> {
    match body {
        BoolBody::Bool(v) => Some(v),
        BoolBody::Number(Some(n)) => Some(n != 0),
        _ => None,
    }
}

/// Checks a request that writes a bool, in the order the API checks it:
/// first the body, then the index. Gives the bool to write.
pub fn put_bool_request(body: BoolBody, index: usize) -> (r: Result<bool, UserError>)
    ensures
        body_value(body) is None ==> (r matches Err(UserError::BadRequest(t)) && t@
            == bad_bool_text()),
        body_value(body) is Some && !api_index_ok(index as int) ==> r matches Err(
            UserError::IndexOutOfRange,
        ),
        api_index_ok(index as int) ==> (body_value(body) matches Some(v) ==> r == Ok::<
            bool,
            UserError,
        >(v)),
{
    let value = parse_bool_body(body)?;
    check_index(index)?;
    Ok(value)
}

/// Refuses an index the API does not serve.
pub fn check_index(index: usize) -> (r: Result<(), UserError>)
    ensures
        (r is Ok) == api_index_ok(index as int),
        r matches Err(e) ==> e is IndexOutOfRange,
{
    if index >= 63 {
        Err(UserError::IndexOutOfRange)
    } else {
        Ok(())
    }
}

/// Reads bool `index` of a user.
pub fn get_bool(user: &User, index: usize) -> (r: Result<bool, UserError>)
    ensures
        api_index_ok(index as int) ==> r == Ok::<bool, UserError>(
            bit_is_set(user.bools, index as int),
        ),
        !api_index_ok(index as int) ==> r matches Err(UserError::IndexOutOfRange),
{
    check_index(index)?;
    get_bit(&user.bools, index)
}

/// Lists the bools of a user as 1s and 0s, up to the last bool set.
pub fn get_bools(user: &User) -> (bools: Vec<u64>)
    ensures
        bools@ == bits_of(user.bools),
{
    get_bits(&user.bools)
}

/// Writes `value` into bool `index` of a user; the user is otherwise kept.
pub fn put_bool(user: User, index: usize, value: bool) -> (r: Result<User, UserError>)
    ensures
        !api_index_ok(index as int) ==> r matches Err(UserError::IndexOutOfRange),
        api_index_ok(index as int) ==> (r matches Ok(u) && u.id == user.id && u.email == user.email
            && u.bools == with_bit(user.bools, index as int, value)),
{
    check_index(index)?;
    let mut user = user;
    set_bit(&mut user.bools, index, value);
    Ok(user)
}

/// The API serves exactly bools 0 to 62: checking an index succeeds for
/// every index below 63 and refuses every other one as out of range.
pub proof fn law_check_index(index: usize, r: Result<(), UserError>)
    requires
        call_ensures(check_index, (index,), r),
    ensures
        index < 63 ==> r is Ok,
        index >= 63 ==> r matches Err(UserError::IndexOutOfRange),
{
}

/// Reading bool `index` of a user gives bit `index` of the user's `u64`
/// (least significant first) for every index below 63, and refuses every
/// other index as out of range.
pub proof fn law_get_bool(user: User, index: usize, r: Result<bool, UserError>)
    requires
        call_ensures(get_bool, (&user, index), r),
    ensures
        index < 63 ==> r == Ok::<bool, UserError>((user.bools >> (index as u64)) & 1u64 == 1u64),
        index >= 63 ==> r matches Err(UserError::IndexOutOfRange),
{
}

/// A write request yields the bool its body asks for: a JSON bool `v` gives
/// `v` itself and a JSON number `n` gives `n != 0`, for every index below
/// 63. A body that is neither is a bad request whatever the index; an
/// index from 63 up is out of range.
pub proof fn law_put_bool_request(body: BoolBody, index: usize, r: Result<bool, UserError>)
    requires
        call_ensures(put_bool_request, (body, index), r),
    ensures
        index < 63 ==> (body matches BoolBody::Bool(v) ==> r == Ok::<bool, UserError>(v)),
        index < 63 ==> (body matches BoolBody::Number(Some(n)) ==> r == Ok::<bool, UserError>(
            n != 0,
        )),
        body matches BoolBody::Bool(_) && index >= 63 ==> r matches Err(UserError::IndexOutOfRange),
        body matches BoolBody::Number(Some(_)) && index >= 63 ==> r matches Err(
            UserError::IndexOutOfRange,
        ),
        body matches BoolBody::Number(None) ==> (r matches Err(UserError::BadRequest(t)) && t@
            == "expected true, false, 1, or 0"@),
        body matches BoolBody::Other ==> (r matches Err(UserError::BadRequest(t)) && t@
            == "expected true, false, 1, or 0"@),
{
}

/// Writing bool `index` of a user sets bit `index` of the user's `u64` to
/// the value and keeps every other bit, the id and the address, for every
/// index below 63; a later read of that bool gives the value written.
pub proof fn law_put_bool(user: User, index: usize, value: bool, r: Result<User, UserError>)
    requires
        call_ensures(put_bool, (user, index, value), r),
    ensures
        index < 63 ==> (r matches Ok(u) && u.id == user.id && u.email == user.email),
        index < 63 ==> (r matches Ok(u) && ((u.bools >> (index as u64)) & 1u64 == 1u64) == value),
        index < 63 ==> (r matches Ok(u) && forall|j: u64|
            j < 64 && j != index ==> ((u.bools >> j) & 1u64) == ((user.bools >> j) & 1u64)),
        index >= 63 ==> r matches Err(UserError::IndexOutOfRange),
{
    if index < 63 {
        crate::vecbit::lemma_get_after_set(user.bools, index as int, value, index as int);
        assert forall|j: u64| j < 64 && j != index implies ((with_bit(
            user.bools,
            index as int,
            value,
        ) >> j) & 1u64) == ((user.bools >> j) & 1u64) by {
            crate::vecbit::lemma_get_after_set(user.bools, index as int, value, j as int);
            let a = with_bit(user.bools, index as int, value);
            assert((a >> j) & 1u64 == 1u64 || (a >> j) & 1u64 == 0u64) by (bit_vector);
            let b = user.bools;
            assert((b >> j) & 1u64 == 1u64 || (b >> j) & 1u64 == 0u64) by (bit_vector);
        }
    }
}

} // verus!
