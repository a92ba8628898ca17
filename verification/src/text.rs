//! Whitespace trimming for the captured version text.

use vstd::prelude::*;

verus! {

/// The whitespace characters that pad the captured version text: a version
/// query ends its output with a newline, and shells may add spaces or tabs.
pub open spec fn is_space_char(c: char) -> bool {
    c == ' ' || c == '\t' || c == '\n' || c == '\r'
}

/// `s` without its leading whitespace.
pub open spec fn trim_front(s: Seq<char>) -> Seq<char>
    decreases s.len(),
{
    if s.len() > 0 && is_space_char(s[0]) {
        trim_front(s.drop_first())
    } else {
        s
    }
}

/// `s` without its trailing whitespace.
pub open spec fn trim_back(s: Seq<char>) -> Seq<char>
    decreases s.len(),
{
    if s.len() > 0 && is_space_char(s.last()) {
        trim_back(s.drop_last())
    } else {
        s
    }
}

/// `s` without leading and trailing whitespace.
pub open spec fn spec_trim(s: Seq<char>) -> Seq<char> {
    trim_back(trim_front(s))
}

fn is_space(c: char) -> (r: bool)
    ensures
        r == is_space_char(c),
{
    c == ' ' || c == '\t' || c == '\n' || c == '\r'
}

/// A copy of `s` with leading and trailing whitespace removed.
pub fn trimmed(s: &str) -> (r: String)
    ensures
        r@ == spec_trim(s@),
{
    let len: usize = s.unicode_len();
    let mut i: usize = 0;
    proof {
        assert(s@.subrange(0, len as int) =~= s@);
    }
    while i < len && is_space(s.get_char(i))
        invariant
            i <= len,
            len == s@.len(),
            trim_front(s@) == trim_front(s@.subrange(i as int, len as int)),
        decreases len - i,
    {
        proof {
            assert(s@.subrange(i as int, len as int).drop_first() =~= s@.subrange(
                i as int + 1,
                len as int,
            ));
        }
        i = i + 1;
    }
    proof {
        assert(trim_front(s@) == s@.subrange(i as int, len as int));
    }
    let mut j: usize = len;
    while j > i && is_space(s.get_char(j - 1))
        invariant
            i <= j <= len,
            len == s@.len(),
            trim_front(s@) == s@.subrange(i as int, len as int),
            trim_back(s@.subrange(i as int, len as int)) == trim_back(
                s@.subrange(i as int, j as int),
            ),
        decreases j,
    {
        proof {
            assert(s@.subrange(i as int, j as int).drop_last() =~= s@.subrange(
                i as int,
                j as int - 1,
            ));
        }
        j = j - 1;
    }
    proof {
        assert(spec_trim(s@) == s@.subrange(i as int, j as int));
    }
    s.substring_char(i, j).to_owned()
}

} // verus!
