use vstd::prelude::*;
use vstd::string::*;

verus! {

/// Whether `c` has the Unicode `White_Space` property, the set that
/// trailing-whitespace trimming removes.
pub open spec fn spec_is_space(c: char) -> bool {
    let u = c as u32;
    u == 0x20 || (0x09 <= u && u <= 0x0d) || u == 0x85 || u == 0xa0 || u == 0x1680 || (0x2000
        <= u && u <= 0x200a) || u == 0x2028 || u == 0x2029 || u == 0x202f || u == 0x205f || u
        == 0x3000
}

/// The length of `s` once trailing whitespace is dropped.
pub open spec fn trimmed_len(s: Seq<char>) -> int
    decreases s.len(),
{
    if s.len() == 0 {
        0
    } else if spec_is_space(s.last()) {
        trimmed_len(s.drop_last())
    } else {
        s.len() as int
    }
}

/// `s` with trailing whitespace dropped; leading whitespace is kept.
pub open spec fn trim_end_spec(s: Seq<char>) -> Seq<char> {
    s.take(trimmed_len(s))
}

fn is_space(c: char) -> (r: bool)
    ensures
        r == spec_is_space(c),
{
    let u: u32 = c as u32;
    u == 0x20 || (0x09 <= u && u <= 0x0d) || u == 0x85 || u == 0xa0 || u == 0x1680 || (0x2000
        <= u && u <= 0x200a) || u == 0x2028 || u == 0x2029 || u == 0x202f || u == 0x205f || u
        == 0x3000
}

/// Whether two string slices hold exactly the same characters.
pub fn str_eq(a: &str, b: &str) -> (r: bool)
    ensures
        r == (a@ == b@),
{
    let a_len = a.unicode_len();
    let b_len = b.unicode_len();
    if a_len != b_len {
        return false;
    }
    let mut i: usize = 0;
    while i < a_len
        invariant
            i <= a_len,
            a_len == a@.len(),
            b_len == b@.len(),
            a_len == b_len,
            forall|j: int| 0 <= j < i ==> a@[j] == b@[j],
        decreases a_len - i,
    {
        if a.get_char(i) != b.get_char(i) {
            return false;
        }
        i += 1;
    }
    proof {
        assert(a@ =~= b@);
    }
    true
}

/// `s` with trailing whitespace removed, as the source of a fresh `String`.
pub fn trim_end_whitespace(s: &str) -> (r: String)
    ensures
        r@ == trim_end_spec(s@),
{
    let len = s.unicode_len();
    let mut n = len;
    proof {
        assert(s@.take(len as int) =~= s@);
    }
    while n > 0 && is_space(s.get_char(n - 1))
        invariant
            n <= len,
            len == s@.len(),
            trimmed_len(s@.take(n as int)) == trimmed_len(s@),
        decreases n,
    {
        proof {
            let t = s@.take(n as int);
            assert(t.last() == s@[n - 1]);
            assert(t.drop_last() =~= s@.take(n - 1));
        }
        n -= 1;
    }
    proof {
        if n == 0 {
            assert(s@.take(0) =~= Seq::<char>::empty());
        } else {
            let t = s@.take(n as int);
            assert(t.last() == s@[n - 1]);
            assert(trimmed_len(t) == n);
        }
        assert(trimmed_len(s@) == n);
        assert(s@.subrange(0, n as int) =~= s@.take(n as int));
    }
    let sub = s.substring_char(0, n);
    String::from_str(sub)
}

} // verus!
