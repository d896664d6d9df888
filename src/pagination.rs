use vstd::prelude::*;
use crate::error::Error;
use crate::text::same_text;

verus! {

/// Which slice of the questions a request asks for.
#[derive(Clone, Copy, Debug, PartialEq, Eq, Structural)]
pub struct Pagination {
    pub limit: Option<i32>,
    pub offset: i32,
}

impl Default for Pagination {
    fn default() -> (r: Pagination)
        ensures
            r == (Pagination { limit: None, offset: 0 }),
    {
        Pagination { limit: None, offset: 0 }
    }
}

/// Whether `c` is an ASCII decimal digit.
pub open spec fn is_digit(c: char) -> bool {
    '0' <= c && c <= '9'
}

/// The value of a string of decimal digits.
pub open spec fn digits_value(s: Seq<char>) -> int
    decreases s.len(),
{
    if s.len() == 0 {
        0
    } else {
        digits_value(s.drop_last()) * 10 + (s.last() as int - '0' as int)
    }
}

/// Whether every character of `s` is a decimal digit.
pub open spec fn all_digits(s: Seq<char>) -> bool {
    forall|i: int| 0 <= i < s.len() ==> is_digit(#[trigger] s[i])
}

/// Whether `s` starts with a sign character.
pub open spec fn has_sign(s: Seq<char>) -> bool {
    s.len() > 0 && (s[0] == '-' || s[0] == '+')
}

/// The digits of a number after its optional sign.
pub open spec fn unsigned_part(s: Seq<char>) -> Seq<char> {
    if has_sign(s) { s.drop_first() } else { s }
}

/// The value a signed decimal string denotes.
pub open spec fn signed_value(s: Seq<char>) -> int {
    if s.len() > 0 && s[0] == '-' {
        -digits_value(unsigned_part(s))
    } else {
        digits_value(unsigned_part(s))
    }
}

/// The `i32` that a string denotes: an optional `+` or `-`, then one or more
/// decimal digits, with a value in range. Anything else denotes none.
pub open spec fn parse_i32_spec(s: Seq<char>) -> Option<i32> {
    if unsigned_part(s).len() > 0 && all_digits(unsigned_part(s)) && i32::MIN <= signed_value(s)
        <= i32::MAX {
        Some(signed_value(s) as i32)
    } else {
        None
    }
}

/// Reads a decimal `i32`.
pub fn parse_i32(s: &str) -> (r: Option<i32>)
    ensures
        r == parse_i32_spec(s@),
{
    let n = s.unicode_len();
    let mut start: usize = 0;
    let mut negative = false;
    if n > 0 {
        let c = s.get_char(0);
        if c == '-' || c == '+' {
            start = 1;
            negative = c == '-';
        }
    }
    let ghost body = unsigned_part(s@);
    assert(negative == (s@.len() > 0 && s@[0] == '-'));
    assert(body =~= s@.subrange(start as int, n as int));
    if start >= n {
        return None;
    }
    let mut acc: i64 = 0;
    let mut over = false;
    let mut i: usize = start;
    while i < n
        invariant
            n == s@.len(),
            start <= i <= n,
            start <= 1,
            body == s@.subrange(start as int, n as int),
            body == unsigned_part(s@),
            negative == (s@.len() > 0 && s@[0] == '-'),
            forall|j: int| 0 <= j < i - start ==> is_digit(#[trigger] body[j]),
            !over ==> acc == digits_value(body.subrange(0, i - start)),
            !over ==> 0 <= acc <= 2147483648,
            over ==> digits_value(body.subrange(0, i - start)) > 2147483648,
        decreases n - i,
    {
        let c = s.get_char(i);
        if !('0' <= c && c <= '9') {
            let ghost k = i - start;
            assert(!is_digit(body[k]));
            assert(!all_digits(body));
            return None;
        }
        let ghost pre = body.subrange(0, i - start);
        let ghost next = body.subrange(0, i + 1 - start);
        assert(next.drop_last() =~= pre);
        assert(next.last() == c);
        let d = (c as u32 - '0' as u32) as i64;
        if !over {
            let v = acc * 10 + d;
            if v > 2147483648 {
                over = true;
            } else {
                acc = v;
            }
        }
        i = i + 1;
    }
    assert(body.subrange(0, n - start) =~= body);
    if over {
        return None;
    }
    if negative {
        Some((-acc) as i32)
    } else if acc > 2147483647 {
        None
    } else {
        Some(acc as i32)
    }
}

/// The query pairs as character sequences.
pub open spec fn query_view(params: Seq<(String, String)>) -> Seq<(Seq<char>, Seq<char>)> {
    params.map_values(|p: (String, String)| (p.0@, p.1@))
}

/// The value of the first pair named `name`.
pub open spec fn query_value(params: Seq<(Seq<char>, Seq<char>)>, name: Seq<char>) -> Option<
    Seq<char>,
>
    decreases params.len(),
{
    if params.len() == 0 {
        None
    } else if params[0].0 == name {
        Some(params[0].1)
    } else {
        query_value(params.drop_first(), name)
    }
}

/// The pagination that a query asks for: both `limit` and `offset` must be
/// present, and each must be a decimal `i32`.
pub open spec fn pagination_of(params: Seq<(Seq<char>, Seq<char>)>) -> Result<Pagination, Error> {
    match (query_value(params, "limit"@), query_value(params, "offset"@)) {
        (Some(l), Some(o)) => match (parse_i32_spec(l), parse_i32_spec(o)) {
            (Some(lv), Some(ov)) => Ok(Pagination { limit: Some(lv), offset: ov }),
            _ => Err(Error::ParseError),
        },
        _ => Err(Error::MissingParameters),
    }
}

/// The value of the first query pair named `name`.
pub fn find_param<'a>(params: &'a Vec<(String, String)>, name: &str) -> (r: Option<&'a String>)
    ensures
        match r {
            Some(v) => query_value(query_view(params@), name@) == Some(v@),
            None => query_value(query_view(params@), name@) is None,
        },
{
    let ghost all = query_view(params@);
    assert(all.subrange(0, all.len() as int) =~= all);
    let mut i: usize = 0;
    while i < params.len()
        invariant
            i <= params@.len(),
            all == query_view(params@),
            query_value(all, name@) == query_value(all.subrange(i as int, all.len() as int), name@),
        decreases params.len() - i,
    {
        let ghost rest = all.subrange(i as int, all.len() as int);
        assert(rest.drop_first() =~= all.subrange(i + 1, all.len() as int));
        if same_text(params[i].0.as_str(), name) {
            return Some(&params[i].1);
        }
        i = i + 1;
    }
    None
}

/// Reads the pagination of a `/questions` request from its query pairs.
pub fn extract_pagination(params: &Vec<(String, String)>) -> (r: Result<Pagination, Error>)
    ensures
        r == pagination_of(query_view(params@)),
{
    let limit = find_param(params, "limit");
    let offset = find_param(params, "offset");
    match (limit, offset) {
        (Some(l), Some(o)) => {
            let lv = parse_i32(l.as_str());
            let ov = parse_i32(o.as_str());
            match (lv, ov) {
                (Some(a), Some(b)) => Ok(Pagination { limit: Some(a), offset: b }),
                _ => Err(Error::ParseError),
            }
        },
        _ => Err(Error::MissingParameters),
    }
}

} // verus!
