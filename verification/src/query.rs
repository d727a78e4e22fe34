//! Query-string assembly: parameters appended to a URL as `&key=value`, and
//! the comma-separated lists that some parameters take as their value.

use vstd::prelude::*;
use vstd::string::*;

verus! {

/// The URL `url` followed by `&keyword=value`.
pub open spec fn with_parameter(url: Seq<char>, keyword: Seq<char>, value: Seq<char>) -> Seq<char> {
    url + seq!['&'] + keyword + seq!['='] + value
}

/// The URL `url`, followed by `&keyword=value` when a value is present and
/// left as it is when there is none.
pub open spec fn with_optional(url: Seq<char>, keyword: Seq<char>, value: Option<Seq<char>>) -> Seq<char> {
    match value {
        Some(v) => with_parameter(url, keyword, v),
        None => url,
    }
}

/// The text of an optional string slice.
pub open spec fn optional_text(value: Option<&str>) -> Option<Seq<char>> {
    match value {
        Some(s) => Some(s@),
        None => None,
    }
}

/// How a boolean is written in a query string.
pub open spec fn bool_text(flag: bool) -> Seq<char> {
    if flag {
        seq!['t', 'r', 'u', 'e']
    } else {
        seq!['f', 'a', 'l', 's', 'e']
    }
}

/// The parts in order, with one comma between each two neighbours.
pub open spec fn comma_joined(parts: Seq<Seq<char>>) -> Seq<char>
    decreases parts.len(),
{
    if parts.len() == 0 {
        Seq::empty()
    } else if parts.len() == 1 {
        parts[0]
    } else {
        comma_joined(parts.drop_last()) + seq![','] + parts.last()
    }
}

/// The texts of a list of string slices.
pub open spec fn texts(parts: Seq<&str>) -> Seq<Seq<char>> {
    Seq::new(parts.len(), |i: int| parts[i]@)
}

/// Appends the parameter `keyword` with the given `value` to `url`.
pub fn parse_url(url: String, keyword: &str, value: &str) -> (result: String)
    ensures
        result@ == with_parameter(url@, keyword@, value@),
{
    proof {
        reveal_strlit("&");
        reveal_strlit("=");
        assert("&"@ == seq!['&']);
        assert("="@ == seq!['=']);
    }
    let mut result = url;
    result.append("&");
    result.append(keyword);
    result.append("=");
    result.append(value);
    result
}

/// Appends the parameter `keyword` to `url` if it has a value.
pub fn parse_optional(url: String, keyword: &str, value: Option<&str>) -> (result: String)
    ensures
        result@ == with_optional(url@, keyword@, optional_text(value)),
{
    match value {
        Some(v) => parse_url(url, keyword, v),
        None => url,
    }
}

/// Writes a boolean as `true` or `false`.
pub fn bool_to_str(flag: bool) -> (result: &'static str)
    ensures
        result@ == bool_text(flag),
{
    proof {
        reveal_strlit("true");
        reveal_strlit("false");
        assert("true"@ == seq!['t', 'r', 'u', 'e']);
        assert("false"@ == seq!['f', 'a', 'l', 's', 'e']);
    }
    if flag {
        "true"
    } else {
        "false"
    }
}

/// Joins the parts with commas.
pub fn join_with_commas(parts: &Vec<&str>) -> (result: String)
    ensures
        result@ == comma_joined(texts(parts@)),
{
    proof {
        reveal_strlit(",");
        assert(","@ == seq![',']);
    }
    let mut result = String::new();
    let mut i: usize = 0;
    while i < parts.len()
        invariant
            i <= parts.len(),
            ","@ == seq![','],
            result@ == comma_joined(texts(parts@).take(i as int)),
        decreases parts.len() - i,
    {
        let ghost before = texts(parts@).take(i as int);
        let ghost after = texts(parts@).take(i + 1);
        proof {
            assert(after.drop_last() == before);
            assert(after.last() == parts@[i as int]@);
        }
        if i > 0 {
            result.append(",");
        }
        result.append(parts[i]);
        i = i + 1;
    }
    proof {
        assert(texts(parts@).take(i as int) == texts(parts@));
    }
    result
}

} // verus!
