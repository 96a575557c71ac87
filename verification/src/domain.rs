use vstd::prelude::*;

verus! {

/// A character that may appear inside a domain-name label: a lower-case
/// ASCII letter, a digit, or a hyphen.
pub open spec fn spec_label_char(c: char) -> bool {
    ||| ('a' as u32) <= (c as u32) <= ('z' as u32)
    ||| ('0' as u32) <= (c as u32) <= ('9' as u32)
    ||| c == '-'
}

/// A character that may appear anywhere in a domain name.
pub open spec fn spec_domain_char(c: char) -> bool {
    spec_label_char(c) || c == '.'
}

/// Syntactic validity of a domain name, the shape the order initiator
/// demands of every identifier before anything is sent to the authority:
/// non-empty, at most 253 characters, built from lower-case letters, digits,
/// hyphens and dots, with no empty label (no leading, trailing or doubled
/// dot) and no hyphen at either end.
pub open spec fn spec_valid_domain(s: Seq<char>) -> bool {
    &&& 1 <= s.len() <= 253
    &&& forall|i: int| 0 <= i < s.len() ==> spec_domain_char(#[trigger] s[i])
    &&& s[0] != '.'
    &&& s[0] != '-'
    &&& s[s.len() - 1] != '.'
    &&& s[s.len() - 1] != '-'
    &&& forall|i: int| 0 < i < s.len() ==> !(s[i - 1] == '.' && #[trigger] s[i] == '.')
}

/// Decides whether one character may appear in a domain name.
fn domain_char(c: char) -> (r: bool)
    ensures
        r == spec_domain_char(c),
{
    let u = c as u32;
    (('a' as u32) <= u && u <= ('z' as u32)) || (('0' as u32) <= u && u <= ('9' as u32)) || c == '-'
        || c == '.'
}

/// Decides syntactic validity of one domain name, exactly as
/// `spec_valid_domain` states it.
pub fn is_valid_domain(s: &str) -> (r: bool)
    ensures
        r == spec_valid_domain(s@),
{
    let n = s.unicode_len();
    if n == 0 || n > 253 {
        return false;
    }
    let first = s.get_char(0);
    if first == '.' || first == '-' {
        return false;
    }
    let last = s.get_char(n - 1);
    if last == '.' || last == '-' {
        return false;
    }
    let mut prev: char = first;
    let mut i: usize = 0;
    while i < n
        invariant
            0 <= i <= n,
            n == s@.len(),
            1 <= n <= 253,
            s@[0] != '.' && s@[0] != '-',
            s@[n - 1] != '.' && s@[n - 1] != '-',
            i > 0 ==> prev == s@[i - 1],
            forall|j: int| 0 <= j < i ==> spec_domain_char(#[trigger] s@[j]),
            forall|j: int| 0 < j < i ==> !(s@[j - 1] == '.' && #[trigger] s@[j] == '.'),
        decreases n - i,
    {
        let c = s.get_char(i);
        if !domain_char(c) {
            return false;
        }
        if i > 0 && prev == '.' && c == '.' {
            return false;
        }
        prev = c;
        i = i + 1;
    }
    true
}

} // verus!
