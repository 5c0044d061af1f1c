//! The request paths and header values the orchestrator sends to the
//! remote API. Each is a pure function of the account namespace, user id,
//! post id or byte offset, stated character by character.

use vstd::prelude::*;
use crate::text::spec_dec;
use crate::text::push_dec;

verus! {

/// The path listing one page of a user's posts at `offset`.
pub open spec fn spec_posts_path(web_name: Seq<char>, user_id: Seq<char>, offset: nat) -> Seq<
    char,
> {
    "/api/v1/"@ + web_name + "/user/"@ + user_id + "/posts?o="@ + spec_dec(offset)
}

/// Build the page-listing path: `/api/v1/{web_name}/user/{user_id}/posts?o={offset}`.
pub fn posts_path(web_name: &str, user_id: &str, offset: usize) -> (p: String)
    ensures
        p@ == spec_posts_path(web_name@, user_id@, offset as nat),
{
    let mut p = String::from_str("/api/v1/");
    p.append(web_name);
    p.append("/user/");
    p.append(user_id);
    p.append("/posts?o=");
    push_dec(offset as u64, &mut p);
    p
}

/// The path of one post's full record.
pub open spec fn spec_post_info_path(
    web_name: Seq<char>,
    user_id: Seq<char>,
    post_id: Seq<char>,
) -> Seq<char> {
    "/api/v1/"@ + web_name + "/user/"@ + user_id + "/post/"@ + post_id
}

/// Build the post-record path: `/api/v1/{web_name}/user/{user_id}/post/{post_id}`.
pub fn post_info_path(web_name: &str, user_id: &str, post_id: &str) -> (p: String)
    ensures
        p@ == spec_post_info_path(web_name@, user_id@, post_id@),
{
    let mut p = String::from_str("/api/v1/");
    p.append(web_name);
    p.append("/user/");
    p.append(user_id);
    p.append("/post/");
    p.append(post_id);
    p
}

/// The path of a user's profile record.
pub open spec fn spec_profile_path(web_name: Seq<char>, user_id: Seq<char>) -> Seq<char> {
    "/api/v1/"@ + web_name + "/user/"@ + user_id + "/profile"@
}

/// Build the profile path: `/api/v1/{web_name}/user/{user_id}/profile`.
pub fn profile_path(web_name: &str, user_id: &str) -> (p: String)
    ensures
        p@ == spec_profile_path(web_name@, user_id@),
{
    let mut p = String::from_str("/api/v1/");
    p.append(web_name);
    p.append("/user/");
    p.append(user_id);
    p.append("/profile");
    p
}

/// The page path of one post on the site itself, sent as the referer of
/// a post-record request (after the base address).
pub open spec fn spec_post_page_path(
    web_name: Seq<char>,
    user_id: Seq<char>,
    post_id: Seq<char>,
) -> Seq<char> {
    "/"@ + web_name + "/user/"@ + user_id + "/post/"@ + post_id
}

/// Build the post page path: `/{web_name}/user/{user_id}/post/{post_id}`.
pub fn post_page_path(web_name: &str, user_id: &str, post_id: &str) -> (p: String)
    ensures
        p@ == spec_post_page_path(web_name@, user_id@, post_id@),
{
    let mut p = String::from_str("/");
    p.append(web_name);
    p.append("/user/");
    p.append(user_id);
    p.append("/post/");
    p.append(post_id);
    p
}

/// The page path of a user on the site itself, sent as the referer of a
/// profile request (after the base address).
pub open spec fn spec_user_page_path(web_name: Seq<char>, user_id: Seq<char>) -> Seq<char> {
    "/"@ + web_name + "/user/"@ + user_id
}

/// Build the user page path: `/{web_name}/user/{user_id}`.
pub fn user_page_path(web_name: &str, user_id: &str) -> (p: String)
    ensures
        p@ == spec_user_page_path(web_name@, user_id@),
{
    let mut p = String::from_str("/");
    p.append(web_name);
    p.append("/user/");
    p.append(user_id);
    p
}

/// The value of the `Range` header asking for bytes from `start` to the
/// end of the resource.
pub open spec fn spec_range_header(start: nat) -> Seq<char> {
    "bytes="@ + spec_dec(start) + "-"@
}

/// Build the range header value `bytes={start}-`.
pub fn range_header_value(start: u64) -> (v: String)
    ensures
        v@ == spec_range_header(start as nat),
{
    let mut v = String::from_str("bytes=");
    push_dec(start, &mut v);
    v.append("-");
    v
}

} // verus!
