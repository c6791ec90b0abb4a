//! Paths of the transfer listings (deposits and withdrawals), with their
//! optional query parameters.
//!
//! The parameters that are present form an ordered list; the list is joined
//! with `&` and prefixed once with `?`. An empty list adds nothing.

use vstd::prelude::*;
use crate::decimal::{decimal_of, decimal_text};

verus! {

/// Kind of deposit to list.
#[derive(Clone, Copy, Debug, PartialEq, Eq, Structural)]
pub enum DepositType {
    Deposit,
    InternalDeposite,
}

/// Kind of withdrawal to list.
#[derive(Clone, Copy, Debug, PartialEq, Eq, Structural)]
pub enum WithdrawType {
    Withdraw,
    InternalWithdraw,
}

/// Direction of a listing relative to its cursor.
#[derive(Clone, Copy, Debug, PartialEq, Eq, Structural)]
pub enum BeforeOrAfter {
    Before,
    After,
}

/// Largest number of entries a listing may ask for.
pub const MAX_LIMIT: u8 = 100;

pub open spec fn clamp_limit(n: u8) -> u8 {
    if n > MAX_LIMIT {
        MAX_LIMIT
    } else {
        n
    }
}

/// `?p0&p1&...&pk` for a non-empty list, nothing for an empty one.
pub open spec fn query_of(params: Seq<Seq<char>>) -> Seq<char>
    decreases params.len(),
{
    if params.len() == 0 {
        Seq::empty()
    } else {
        let sep = if params.len() == 1 { '?' } else { '&' };
        query_of(params.drop_last()).push(sep) + params.last()
    }
}

pub open spec fn present(p: Option<Seq<char>>) -> Seq<Seq<char>> {
    match p {
        Some(s) => seq![s],
        None => Seq::empty(),
    }
}

pub open spec fn str_opt_view(s: Option<&str>) -> Option<Seq<char>> {
    match s {
        Some(t) => Some(t@),
        None => None,
    }
}

pub open spec fn deposit_type_param(t: DepositType) -> Seq<char> {
    match t {
        DepositType::Deposit => "type=deposit"@,
        DepositType::InternalDeposite => "type=internal_deposit"@,
    }
}

pub open spec fn withdraw_type_param(t: WithdrawType) -> Seq<char> {
    match t {
        WithdrawType::Withdraw => "type=withdraw"@,
        WithdrawType::InternalWithdraw => "type=internal_withdraw"@,
    }
}

pub open spec fn before_or_after_param(b: BeforeOrAfter) -> Seq<char> {
    match b {
        BeforeOrAfter::Before => "before"@,
        BeforeOrAfter::After => "after"@,
    }
}

/// The parameters after the type filter, in their fixed order.
pub open spec fn common_params(
    profile_id: Option<Seq<char>>,
    before_or_after: Option<BeforeOrAfter>,
    limit: Option<u8>,
) -> Seq<Seq<char>> {
    present(
        match profile_id {
            Some(p) => Some("profile_id="@ + p),
            None => None,
        },
    ) + present(
        match before_or_after {
            Some(b) => Some(before_or_after_param(b)),
            None => None,
        },
    ) + present(
        match limit {
            Some(n) => Some("limit="@ + decimal_of(clamp_limit(n) as nat)),
            None => None,
        },
    )
}

pub open spec fn transfers_path_of(params: Seq<Seq<char>>) -> Seq<char> {
    "/transfers/"@ + query_of(params)
}

pub open spec fn deposits_path_of(
    deposit_type: Option<DepositType>,
    profile_id: Option<Seq<char>>,
    before_or_after: Option<BeforeOrAfter>,
    limit: Option<u8>,
) -> Seq<char> {
    transfers_path_of(
        present(
            match deposit_type {
                Some(t) => Some(deposit_type_param(t)),
                None => None,
            },
        ) + common_params(profile_id, before_or_after, limit),
    )
}

pub open spec fn withdrawals_path_of(
    withdraw_type: Option<WithdrawType>,
    profile_id: Option<Seq<char>>,
    before_or_after: Option<BeforeOrAfter>,
    limit: Option<u8>,
) -> Seq<char> {
    transfers_path_of(
        present(
            match withdraw_type {
                Some(t) => Some(withdraw_type_param(t)),
                None => None,
            },
        ) + common_params(profile_id, before_or_after, limit),
    )
}

pub open spec fn string_views(v: Seq<String>) -> Seq<Seq<char>> {
    v.map_values(|s: String| s@)
}

fn push_present(params: &mut Vec<String>, p: Option<String>)
    ensures
        string_views(final(params)@) == string_views(old(params)@) + present(
            match p {
                Some(s) => Some(s@),
                None => None,
            },
        ),
{
    match p {
        Some(s) => {
            params.push(s);
            assert(string_views(final(params)@) =~= string_views(old(params)@) + seq![s@]);
        },
        None => {
            assert(string_views(final(params)@) =~= string_views(old(params)@));
        },
    }
}

/// Appends the query built from `params` to `base`.
fn append_query(base: &str, params: &Vec<String>) -> (r: String)
    ensures
        r@ == base@ + query_of(string_views(params@)),
{
    let mut r = String::from_str(base);
    let mut i: usize = 0;
    while i < params.len()
        invariant
            i <= params.len(),
            r@ == base@ + query_of(string_views(params@).take(i as int)),
        decreases params.len() - i,
    {
        let ghost done = string_views(params@).take(i as int);
        let ghost next = string_views(params@).take(i as int + 1);
        assert(next.drop_last() =~= done);
        assert(next.last() == params@[i as int]@);
        assert(query_of(next) == query_of(done).push(if i == 0 { '?' } else { '&' }) + next.last());
        proof {
            reveal_strlit("?");
            reveal_strlit("&");
        }
        if i == 0 {
            r.append("?");
        } else {
            r.append("&");
        }
        r.append(params[i].as_str());
        assert(r@ =~= base@ + query_of(next));
        i += 1;
    }
    assert(string_views(params@).take(params@.len() as int) =~= string_views(params@));
    r
}

fn prefixed(prefix: &str, value: &str) -> (r: String)
    ensures
        r@ == prefix@ + value@,
{
    let mut r = String::from_str(prefix);
    r.append(value);
    r
}

fn before_or_after_text(b: BeforeOrAfter) -> (r: String)
    ensures
        r@ == before_or_after_param(b),
{
    match b {
        BeforeOrAfter::Before => String::from_str("before"),
        BeforeOrAfter::After => String::from_str("after"),
    }
}

fn push_common_params(
    params: &mut Vec<String>,
    profile_id: Option<&str>,
    before_or_after: Option<BeforeOrAfter>,
    limit: Option<u8>,
)
    ensures
        string_views(final(params)@) == string_views(old(params)@) + common_params(
            str_opt_view(profile_id),
            before_or_after,
            limit,
        ),
{
    let ghost start = string_views(params@);
    let p = match profile_id {
        Some(id) => Some(prefixed("profile_id=", id)),
        None => None,
    };
    push_present(params, p);
    let b = match before_or_after {
        Some(x) => Some(before_or_after_text(x)),
        None => None,
    };
    push_present(params, b);
    let l = match limit {
        Some(n) => {
            let clamped: u8 = if n > MAX_LIMIT { MAX_LIMIT } else { n };
            let digits = decimal_text(clamped as u64);
            Some(prefixed("limit=", digits.as_str()))
        },
        None => None,
    };
    push_present(params, l);
    assert(string_views(params@) =~= start + common_params(
        str_opt_view(profile_id),
        before_or_after,
        limit,
    ));
}

/// Path of the deposit listing with the parameters that are given.
pub fn deposits_path(
    deposit_type: Option<DepositType>,
    profile_id: Option<&str>,
    before_or_after: Option<BeforeOrAfter>,
    limit: Option<u8>,
) -> (r: String)
    ensures
        r@ == deposits_path_of(deposit_type, str_opt_view(profile_id), before_or_after, limit),
{
    let mut params: Vec<String> = Vec::new();
    let t = match deposit_type {
        Some(DepositType::Deposit) => Some(String::from_str("type=deposit")),
        Some(DepositType::InternalDeposite) => Some(String::from_str("type=internal_deposit")),
        None => None,
    };
    push_present(&mut params, t);
    push_common_params(&mut params, profile_id, before_or_after, limit);
    assert(string_views(params@) =~= present(
        match deposit_type {
            Some(t) => Some(deposit_type_param(t)),
            None => None,
        },
    ) + common_params(str_opt_view(profile_id), before_or_after, limit));
    append_query("/transfers/", &params)
}

/// Path of the withdrawal listing with the parameters that are given.
pub fn withdrawals_path(
    withdraw_type: Option<WithdrawType>,
    profile_id: Option<&str>,
    before_or_after: Option<BeforeOrAfter>,
    limit: Option<u8>,
) -> (r: String)
    ensures
        r@ == withdrawals_path_of(withdraw_type, str_opt_view(profile_id), before_or_after, limit),
{
    let mut params: Vec<String> = Vec::new();
    let t = match withdraw_type {
        Some(WithdrawType::Withdraw) => Some(String::from_str("type=withdraw")),
        Some(WithdrawType::InternalWithdraw) => Some(String::from_str("type=internal_withdraw")),
        None => None,
    };
    push_present(&mut params, t);
    push_common_params(&mut params, profile_id, before_or_after, limit);
    assert(string_views(params@) =~= present(
        match withdraw_type {
            Some(t) => Some(withdraw_type_param(t)),
            None => None,
        },
    ) + common_params(str_opt_view(profile_id), before_or_after, limit));
    append_query("/transfers/", &params)
}

} // verus!
