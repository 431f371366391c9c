//! The claims of a signed JWT, with times as seconds since the epoch.
use vstd::prelude::*;

use crate::codec::{trim_white_space, trimmed};

verus! {

/// The comma-separated fields of `s`, as `str::split(',')` gives them: one more
/// field than there are commas, possibly empty.
pub open spec fn comma_fields(s: Seq<char>) -> Seq<Seq<char>>
    decreases s.len(),
{
    if s.len() == 0 {
        seq![Seq::empty()]
    } else {
        let f = comma_fields(s.drop_last());
        if s.last() == ',' {
            f.push(Seq::empty())
        } else {
            f.update(f.len() - 1, f.last().push(s.last()))
        }
    }
}

/// The audience entries: the comma-separated fields of `aud`, each trimmed of
/// white space, in order.
pub fn split_audience(aud: &str) -> (r: Vec<String>)
    ensures
        r@.len() == comma_fields(aud@).len(),
        forall|k: int| 0 <= k < r@.len() ==> #[trigger] r@[k]@ == trimmed(comma_fields(aud@)[k]),
{
    let n = aud.unicode_len();
    let mut out: Vec<String> = Vec::new();
    let ghost mut raw: Seq<Seq<char>> = Seq::empty();
    let mut start: usize = 0;
    let mut i: usize = 0;
    assert(aud@.subrange(0, 0) =~= Seq::<char>::empty());
    assert(aud@.subrange(0, 0) =~= aud@.subrange(start as int, 0));
    while i < n
        invariant
            n == aud@.len(),
            start <= i <= n,
            out@.len() == raw.len(),
            forall|k: int| 0 <= k < out@.len() ==> #[trigger] out@[k]@ == trimmed(raw[k]),
            comma_fields(aud@.subrange(0, i as int)) == raw.push(aud@.subrange(start as int, i as int)),
        decreases n - i,
    {
        let c = aud.get_char(i);
        assert(aud@.subrange(0, i + 1).drop_last() =~= aud@.subrange(0, i as int));
        assert(aud@.subrange(0, i + 1).last() == c);
        if c == ',' {
            let field = aud.substring_char(start, i);
            out.push(String::from_str(trim_white_space(field)));
            proof {
                raw = raw.push(aud@.subrange(start as int, i as int));
                assert(aud@.subrange(i + 1, i + 1) =~= Seq::<char>::empty());
            }
            start = i + 1;
        } else {
            assert(aud@.subrange(start as int, i + 1) =~= aud@.subrange(start as int, i as int).push(c));
        }
        i = i + 1;
    }
    assert(aud@.subrange(0, n as int) =~= aud@);
    let field = aud.substring_char(start, n);
    out.push(String::from_str(trim_white_space(field)));
    proof {
        raw = raw.push(aud@.subrange(start as int, n as int));
    }
    out
}

/// The claims a token carries.
#[derive(Debug, Clone)]
pub struct Claims {
    pub sub: String,
    pub aud: Vec<String>,
    pub input: String,
    /// Issued at, in seconds since the epoch.
    pub iat: i64,
    /// Expires at, in seconds since the epoch.
    pub exp: i64,
}

impl Claims {
    /// Claims for a subject and the comma-separated audience list `aud`.
    pub fn new(sub: String, aud: String, input: String, iat: i64, exp: i64) -> (r: Self)
        ensures
            r.sub@ == sub@,
            r.input@ == input@,
            r.iat == iat,
            r.exp == exp,
            r.aud@.len() == comma_fields(aud@).len(),
            forall|k: int| 0 <= k < r.aud@.len() ==> #[trigger] r.aud@[k]@ == trimmed(comma_fields(aud@)[k]),
    {
        let aud = split_audience(aud.as_str());
        Claims { sub, aud, input, iat, exp }
    }
}

} // verus!
