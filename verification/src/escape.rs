//! Unescaping of CLI output text.
//!
//! Text handed to the CLI printer sometimes carries the two-byte escape
//! sequences `\n` and `\t` literally; before printing they are turned into
//! the newline and tab they stand for. The transformation works on UTF-8
//! bytes: the bytes involved are all ASCII, so multi-byte characters pass
//! through untouched.

use vstd::prelude::*;

verus! {

/// `s` with every backslash-`n` pair turned into a newline and every
/// backslash-`t` pair into a tab, scanning left to right; a backslash that
/// opens no such pair is kept as it is.
pub open spec fn unescaped(s: Seq<u8>) -> Seq<u8>
    decreases s.len(),
{
    if s.len() == 0 {
        Seq::empty()
    } else if s.len() >= 2 && s[0] == 92 && s[1] == 110 {
        seq![10u8] + unescaped(s.skip(2))
    } else if s.len() >= 2 && s[0] == 92 && s[1] == 116 {
        seq![9u8] + unescaped(s.skip(2))
    } else {
        seq![s[0]] + unescaped(s.skip(1))
    }
}

/// Replaces the literal escape sequences `\n` and `\t` in UTF-8 text by the
/// control characters they name.
pub fn unescape_cli_text(s: &[u8]) -> (r: Vec<u8>)
    ensures
        r@ == unescaped(s@),
{
    let n = s.len();
    let mut r: Vec<u8> = Vec::new();
    let mut i: usize = 0;
    proof {
        assert(s@.skip(0) =~= s@);
        assert(Seq::<u8>::empty() + unescaped(s@) =~= unescaped(s@));
    }
    while i < n
        invariant
            i <= n,
            n == s@.len(),
            r@ + unescaped(s@.skip(i as int)) == unescaped(s@),
        decreases n - i,
    {
        if i + 1 < n && s[i] == 92 && (s[i + 1] == 110 || s[i + 1] == 116) {
            let c: u8 = if s[i + 1] == 110 {
                10
            } else {
                9
            };
            proof {
                assert(s@.skip(i as int)[0] == s@[i as int]);
                assert(s@.skip(i as int)[1] == s@[i as int + 1]);
                assert(s@.skip(i as int).skip(2) =~= s@.skip(i as int + 2));
                assert(r@.push(c) + unescaped(s@.skip(i as int + 2)) =~= r@ + (seq![c]
                    + unescaped(s@.skip(i as int + 2))));
            }
            r.push(c);
            i = i + 2;
        } else {
            let c: u8 = s[i];
            proof {
                assert(s@.skip(i as int).len() == n - i);
                assert(i + 1 < n ==> s@.skip(i as int)[1] == s@[i as int + 1]);
                assert(s@.skip(i as int)[0] == s@[i as int]);
                assert(s@.skip(i as int).skip(1) =~= s@.skip(i as int + 1));
                assert(r@.push(c) + unescaped(s@.skip(i as int + 1)) =~= r@ + (seq![c]
                    + unescaped(s@.skip(i as int + 1))));
            }
            r.push(c);
            i = i + 1;
        }
    }
    proof {
        assert(s@.skip(n as int) =~= Seq::<u8>::empty());
    }
    r
}

} // verus!
