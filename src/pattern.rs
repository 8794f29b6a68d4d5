use vstd::prelude::*;

verus! {

/// Number of occurrences of `c` in `s`.
pub open spec fn count_char(s: Seq<char>, c: char) -> nat
    decreases s.len(),
{
    if s.len() == 0 {
        0
    } else {
        count_char(s.drop_last(), c) + if s.last() == c {
            1nat
        } else {
            0nat
        }
    }
}

/// A stream pattern is `<symbol>/<timeframe>/<attribute-group>`: exactly
/// three `/`-separated segments, none of them empty. A segment may be the
/// wildcard `*`.
pub open spec fn valid_pattern(s: Seq<char>) -> bool {
    &&& count_char(s, '/') == 2
    &&& s.len() > 0
    &&& s[0] != '/'
    &&& s.last() != '/'
    &&& forall|i: int| 0 <= i < s.len() - 1 && #[trigger] s[i] == '/' ==> s[i + 1] != '/'
}

/// Checks that `stream` is a well-formed stream pattern.
pub fn is_valid_stream_format(stream: &str) -> (r: bool)
    ensures
        r == valid_pattern(stream@),
{
    let n = stream.unicode_len();
    if n == 0 {
        return false;
    }
    let mut slashes: usize = 0;
    let mut prev_slash = false;
    let mut adjacent = false;
    let mut i: usize = 0;
    while i < n
        invariant
            n == stream@.len(),
            i <= n,
            slashes <= i,
            slashes == count_char(stream@.subrange(0, i as int), '/'),
            i > 0 ==> prev_slash == (stream@[i - 1] == '/'),
            i == 0 ==> !prev_slash,
            adjacent <==> exists|j: int|
                0 <= j < i - 1 && #[trigger] stream@[j] == '/' && stream@[j + 1] == '/',
        decreases n - i,
    {
        let c = stream.get_char(i);
        proof {
            let s = stream@;
            assert(s.subrange(0, i + 1).drop_last() =~= s.subrange(0, i as int));
        }
        if c == '/' {
            if prev_slash {
                assert(stream@[i - 1] == '/' && stream@[i as int] == '/');
                adjacent = true;
            }
            slashes = slashes + 1;
            prev_slash = true;
        } else {
            prev_slash = false;
        }
        proof {
            if !(c == '/' && i > 0 && prev_slash) {
                assert forall|j: int|
                    0 <= j < i && #[trigger] stream@[j] == '/' && stream@[j + 1] == '/' implies j
                    < i - 1 by {}
            }
        }
        i = i + 1;
    }
    proof {
        assert(stream@.subrange(0, n as int) =~= stream@);
    }
    slashes == 2 && stream.get_char(0) != '/' && stream.get_char(n - 1) != '/' && !adjacent
}

} // verus!
