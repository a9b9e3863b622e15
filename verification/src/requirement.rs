//! The requirement of an authentication execution, stored as an integer
//! and exchanged as a name.
use vstd::prelude::*;
use vstd::string::*;

verus! {

/// The name of a stored requirement code.
pub open spec fn requirement_of_code(value: Option<i64>) -> Option<Seq<char>> {
    match value {
        Some(0) => Some("REQUIRED"@),
        Some(1) => Some("ALTERNATIVE"@),
        Some(2) => Some("DISABLED"@),
        Some(3) => Some("CONDITIONAL"@),
        _ => None,
    }
}

/// The name of a stored requirement code: 0 `REQUIRED`, 1 `ALTERNATIVE`,
/// 2 `DISABLED`, 3 `CONDITIONAL`; `None` for anything else.
pub fn requirement_name(value: Option<i64>) -> (r: Option<&'static str>)
    ensures
        crate::text::opt_view(r) == requirement_of_code(value),
{
    match value {
        Some(0) => Some("REQUIRED"),
        Some(1) => Some("ALTERNATIVE"),
        Some(2) => Some("DISABLED"),
        Some(3) => Some("CONDITIONAL"),
        _ => None,
    }
}

/// The code of a character after ASCII upper-casing.
pub open spec fn upper_code(c: char) -> u32 {
    if 'a' <= c && c <= 'z' {
        (c as u32 - 32) as u32
    } else {
        c as u32
    }
}

/// `s` upper-cased in ASCII spells `name`.
pub open spec fn upper_matches(s: Seq<char>, name: Seq<char>) -> bool {
    s.len() == name.len() && forall|i: int| 0 <= i < s.len() ==> upper_code(#[trigger] s[i]) == name[i] as u32
}

/// The stored code of a requirement name, regardless of ASCII case.
pub open spec fn code_of_requirement(value: Option<Seq<char>>) -> Option<i64> {
    match value {
        Some(v) => if upper_matches(v, "REQUIRED"@) {
            Some(0)
        } else if upper_matches(v, "ALTERNATIVE"@) {
            Some(1)
        } else if upper_matches(v, "DISABLED"@) {
            Some(2)
        } else if upper_matches(v, "CONDITIONAL"@) {
            Some(3)
        } else {
            None
        },
        None => None,
    }
}

fn str_upper_matches(s: &str, name: &str) -> (r: bool)
    ensures
        r == upper_matches(s@, name@),
{
    let n = s.unicode_len();
    if n != name.unicode_len() {
        return false;
    }
    let mut i: usize = 0;
    while i < n
        invariant
            n == s@.len(),
            n == name@.len(),
            i <= n,
            forall|j: int| 0 <= j < i ==> upper_code(#[trigger] s@[j]) == name@[j] as u32,
        decreases n - i,
    {
        let c = s.get_char(i);
        let code: u32 = if 'a' <= c && c <= 'z' {
            c as u32 - 32
        } else {
            c as u32
        };
        if code != name.get_char(i) as u32 {
            return false;
        }
        i = i + 1;
    }
    true
}

/// The stored code of a requirement name, regardless of ASCII case:
/// `REQUIRED` 0, `ALTERNATIVE` 1, `DISABLED` 2, `CONDITIONAL` 3; `None` for
/// anything else.
pub fn requirement_to_int(value: Option<&str>) -> (r: Option<i64>)
    ensures
        r == code_of_requirement(crate::text::opt_view(value)),
{
    match value {
        Some(v) => if str_upper_matches(v, "REQUIRED") {
            Some(0)
        } else if str_upper_matches(v, "ALTERNATIVE") {
            Some(1)
        } else if str_upper_matches(v, "DISABLED") {
            Some(2)
        } else if str_upper_matches(v, "CONDITIONAL") {
            Some(3)
        } else {
            None
        },
        None => None,
    }
}


/// Naming a stored requirement code and reading the name back gives the
/// code.
pub proof fn lemma_requirement_roundtrip(code: i64)
    requires
        0 <= code <= 3,
    ensures
        code_of_requirement(requirement_of_code(Some(code))) == Some(code),
{
    reveal_strlit("REQUIRED");
    reveal_strlit("ALTERNATIVE");
    reveal_strlit("DISABLED");
    reveal_strlit("CONDITIONAL");
    let name = requirement_of_code(Some(code)).unwrap();
    assert(upper_matches(name, name));
    if code == 2 {
        assert(name[0] == 'D');
        assert(!upper_matches(name, "REQUIRED"@));
    }
    if code == 3 {
        assert(name[0] == 'C');
        assert(!upper_matches(name, "ALTERNATIVE"@));
    }
}
} // verus!
