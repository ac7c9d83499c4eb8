//! The pure parts of the HTTP handlers: request validation and pagination
//! of the bulk user lookup.

use vstd::prelude::*;
use vstd::string::StringExecFns;
use crate::errors::ApiError;
use crate::models::UserBasicInfo;

verus! {

/// The most subjects one bulk lookup may ask for.
pub const MAX_SUBS_PER_REQUEST: usize = 100;

/// The page size used when a bulk lookup names none.
pub fn default_limit() -> (r: usize)
    ensures
        r == 20,
{
    20
}

/// A bulk lookup: subjects to fetch and the page of results wanted.
#[derive(Debug)]
pub struct GetUsersBySubsRequest {
    pub subs: Vec<String>,
    pub offset: usize,
    pub limit: usize,
}

/// A page of a bulk lookup's results, echoing the page parameters and the
/// total number of rows found before pagination.
#[derive(Debug)]
pub struct GetUsersBySubsResponse {
    pub users: Vec<UserBasicInfo>,
    pub total: usize,
    pub offset: usize,
    pub limit: usize,
}

/// Rejects a bulk lookup that asks for more subjects than the cap allows.
pub fn subs_request_error(request: &GetUsersBySubsRequest) -> (r: Option<ApiError>)
    ensures
        match r {
            Some(e) => request.subs@.len() > 100 && (e matches ApiError::BadRequest(m) && m@
                == "Too many subs requested. Maximum is 100"@),
            None => request.subs@.len() <= 100,
        },
{
    if request.subs.len() > MAX_SUBS_PER_REQUEST {
        Some(ApiError::BadRequest(String::from_str("Too many subs requested. Maximum is 100")))
    } else {
        None
    }
}

/// Pages the fetched rows: the limit is capped at the request cap, then
/// the page is the rows from `offset` on, at most `limit` of them, with
/// the pre-pagination total echoed back.
pub fn users_by_subs_response(all: Vec<UserBasicInfo>, offset: usize, limit: usize) -> (r:
    GetUsersBySubsResponse)
    ensures
        r.total == all@.len(),
        r.offset == offset,
        r.limit == (if limit > 100 {
            100int
        } else {
            limit as int
        }),
        ({
            let len = all@.len() as int;
            let start = if offset as int <= len {
                offset as int
            } else {
                len
            };
            let end = if start + r.limit <= len {
                start + r.limit
            } else {
                len
            };
            r.users@ == all@.subrange(start, end)
        }),
{
    let lim: usize = if limit > MAX_SUBS_PER_REQUEST {
        MAX_SUBS_PER_REQUEST
    } else {
        limit
    };
    let total = all.len();
    let start: usize = if offset > total {
        total
    } else {
        offset
    };
    let room: usize = total - start;
    let take: usize = if lim > room {
        room
    } else {
        lim
    };
    let end: usize = start + take;
    let mut users: Vec<UserBasicInfo> = Vec::new();
    let mut i: usize = start;
    while i < end
        invariant
            start <= i <= end,
            end <= all@.len(),
            users@ == all@.subrange(start as int, i as int),
        decreases end - i,
    {
        proof {
            assert(all@.subrange(start as int, i as int).push(all@[i as int]) =~= all@.subrange(
                start as int,
                i as int + 1,
            ));
        }
        users.push(all[i].clone());
        i += 1;
    }
    GetUsersBySubsResponse { users, total, offset, limit: lim }
}

} // verus!
