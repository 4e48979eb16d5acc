use vstd::prelude::*;
use vstd::string::StringExecFns;

verus! {

/// The views of a sequence of strings, in order.
pub open spec fn texts(v: Seq<String>) -> Seq<Seq<char>> {
    v.map_values(|s: String| s@)
}

/// A text between double quotes, with the escapes of the standard library's
/// `Debug` form of a string.
pub uninterp spec fn quoted(s: Seq<char>) -> Seq<char>;

/// Formats a string with `{:?}`, the `Debug` form of `str`. The result is a
/// function of the characters of `s` alone; the contract gives it the name
/// `quoted` and claims nothing more.
#[verifier::external_body]
pub(crate) fn quote_text(s: &str) -> (r: String)
    ensures
        r@ == quoted(s@),
{
    format!("{:?}", s)
}

/// Whether two strings hold the same characters.
pub fn same_text(a: &str, b: &str) -> (r: bool)
    ensures
        r == (a@ == b@),
{
    let x = String::from_str(a);
    let y = String::from_str(b);
    x == y
}

/// An owned copy of a string.
pub fn copy_text(a: &str) -> (r: String)
    ensures
        r@ == a@,
{
    String::from_str(a)
}

/// An owned copy of a list of strings.
pub fn copy_texts(v: &Vec<String>) -> (r: Vec<String>)
    ensures
        texts(r@) == texts(v@),
{
    let mut out: Vec<String> = Vec::new();
    let mut i: usize = 0;
    while i < v.len()
        invariant
            i <= v.len(),
            out@.len() == i,
            forall|j: int| 0 <= j < i ==> (#[trigger] out@[j])@ == v@[j]@,
        decreases v.len() - i,
    {
        out.push(copy_text(v[i].as_str()));
        i += 1;
    }
    assert(texts(out@) =~= texts(v@));
    out
}

/// A list that holds `first` and then a copy of each string of `rest`.
pub fn prepend_text(first: &str, rest: &Vec<String>) -> (r: Vec<String>)
    ensures
        texts(r@) == seq![first@] + texts(rest@),
{
    let mut out: Vec<String> = Vec::new();
    out.push(copy_text(first));
    let mut i: usize = 0;
    while i < rest.len()
        invariant
            i <= rest.len(),
            out@.len() == i + 1,
            out@[0]@ == first@,
            forall|j: int| 0 <= j < i ==> (#[trigger] out@[j + 1])@ == rest@[j]@,
        decreases rest.len() - i,
    {
        out.push(copy_text(rest[i].as_str()));
        i += 1;
    }
    assert(texts(out@) =~= seq![first@] + texts(rest@)) by {
        assert forall|k: int| 0 <= k < out@.len() implies texts(out@)[k] == (seq![first@] + texts(
            rest@,
        ))[k] by {
            if k > 0 {
                assert(out@[(k - 1) + 1]@ == rest@[k - 1]@);
            }
        }
    }
    out
}

/// The view of a string that may be absent.
pub open spec fn opt_text(o: Option<String>) -> Option<Seq<char>> {
    match o {
        Some(s) => Some(s@),
        None => None,
    }
}

/// An owned copy of a string that may be absent.
pub fn copy_opt_text(o: &Option<String>) -> (r: Option<String>)
    ensures
        opt_text(r) == opt_text(*o),
{
    match o {
        Some(s) => Some(copy_text(s.as_str())),
        None => None,
    }
}

/// Whether a character is one of the ten decimal digits.
pub open spec fn is_digit(c: char) -> bool {
    '0' <= c && c <= '9'
}

/// Whether a string starts with a decimal digit.
pub fn starts_with_digit(s: &str) -> (r: bool)
    ensures
        r == (s@.len() > 0 && is_digit(s@[0])),
{
    if s.unicode_len() == 0 {
        false
    } else {
        let c = s.get_char(0);
        '0' <= c && c <= '9'
    }
}

} // verus!
