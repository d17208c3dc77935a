//! The annotation's argument: a single double-quoted string literal.
//!
//! The literal grammar is the plain double-quoted form: `"` body `"`, where
//! the body holds no bare `"` and uses the backslash escapes `\"`, `\\`,
//! `\n`, `\t`, `\r`, `\0` and `\'`. Any other argument shape is malformed.

use vstd::prelude::*;

verus! {

/// The character denoted by the escape `\e`, or nothing when `\e` is not an
/// escape of the literal grammar.
pub open spec fn unescape_char(e: char) -> Option<char> {
    if e == '"' {
        Option::Some('"')
    } else if e == '\\' {
        Option::Some('\\')
    } else if e == 'n' {
        Option::Some('\n')
    } else if e == 't' {
        Option::Some('\t')
    } else if e == 'r' {
        Option::Some('\r')
    } else if e == '0' {
        Option::Some('\0')
    } else if e == '\'' {
        Option::Some('\'')
    } else {
        Option::None
    }
}

/// The string denoted by the literal body `s` read from position `i` on, or
/// nothing when the body is malformed there (a bare quote, or a trailing or
/// unknown escape).
pub open spec fn unescape_from(s: Seq<char>, i: int) -> Option<Seq<char>>
    decreases s.len() - i,
{
    if i >= s.len() {
        Option::Some(Seq::empty())
    } else if s[i] == '"' {
        Option::None
    } else if s[i] == '\\' {
        if i + 1 >= s.len() {
            Option::None
        } else {
            match unescape_char(s[i + 1]) {
                Option::None => Option::None,
                Option::Some(c) => match unescape_from(s, i + 2) {
                    Option::None => Option::None,
                    Option::Some(rest) => Option::Some(seq![c] + rest),
                },
            }
        }
    } else {
        match unescape_from(s, i + 1) {
            Option::None => Option::None,
            Option::Some(rest) => Option::Some(seq![s[i]] + rest),
        }
    }
}

/// The string a well-formed literal denotes, or nothing when `s` is not a
/// single double-quoted string literal.
pub open spec fn str_lit_value(s: Seq<char>) -> Option<Seq<char>> {
    if s.len() >= 2 && s[0] == '"' && s[s.len() - 1] == '"' {
        unescape_from(s.subrange(1, s.len() - 1), 0)
    } else {
        Option::None
    }
}

fn unescape_char_exec(e: char) -> (r: Option<char>)
    ensures
        r == unescape_char(e),
{
    if e == '"' {
        Some('"')
    } else if e == '\\' {
        Some('\\')
    } else if e == 'n' {
        Some('\n')
    } else if e == 't' {
        Some('\t')
    } else if e == 'r' {
        Some('\r')
    } else if e == '0' {
        Some('\0')
    } else if e == '\'' {
        Some('\'')
    } else {
        None
    }
}

/// Reads `s` as a single double-quoted string literal and yields the string
/// it denotes; yields nothing exactly when `s` is malformed.
pub fn parse_string_literal(s: &str) -> (r: Option<String>)
    ensures
        match r {
            Option::Some(v) => str_lit_value(s@) == Option::Some(v@),
            Option::None => str_lit_value(s@) is None,
        },
{
    let n: usize = s.unicode_len();
    if n < 2 {
        return None;
    }
    if s.get_char(0) != '"' || s.get_char(n - 1) != '"' {
        return None;
    }
    let ghost mid = s@.subrange(1, n - 1);
    let mut acc = String::new();
    let mut i: usize = 1;
    proof {
        assert(Seq::<char>::empty() + unescape_from(mid, 0)->Some_0 =~= unescape_from(
            mid,
            0,
        )->Some_0);
    }
    while i < n - 1
        invariant
            1 <= i <= n - 1,
            2 <= n == s@.len(),
            mid == s@.subrange(1, n - 1),
            unescape_from(mid, i - 1) is Some ==> unescape_from(mid, 0) == Option::Some(
                acc@ + unescape_from(mid, i - 1)->Some_0,
            ),
            unescape_from(mid, i - 1) is None ==> unescape_from(mid, 0) is None,
        decreases n - 1 - i,
    {
        let c = s.get_char(i);
        proof {
            assert(mid[i - 1] == s@[i as int]);
        }
        if c == '"' {
            return None;
        } else if c == '\\' {
            if i + 1 >= n - 1 {
                return None;
            }
            let e = s.get_char(i + 1);
            proof {
                assert(mid[i as int] == s@[i + 1]);
            }
            match unescape_char_exec(e) {
                None => {
                    return None;
                },
                Some(u) => {
                    let ghost acc_old = acc@;
                    crate::text::push_char(&mut acc, u);
                    proof {
                        if unescape_from(mid, i + 1) is Some {
                            assert(unescape_from(mid, i - 1) == Option::Some(
                                seq![u] + unescape_from(mid, i + 1)->Some_0,
                            ));
                            assert(acc_old + (seq![u] + unescape_from(mid, i + 1)->Some_0) =~= acc@
                                + unescape_from(mid, i + 1)->Some_0);
                        }
                    }
                    i += 2;
                },
            }
        } else {
            let ghost acc_old = acc@;
            crate::text::push_char(&mut acc, c);
            proof {
                if unescape_from(mid, i as int) is Some {
                    assert(unescape_from(mid, i - 1) == Option::Some(
                        seq![c] + unescape_from(mid, i as int)->Some_0,
                    ));
                    assert(acc_old + (seq![c] + unescape_from(mid, i as int)->Some_0) =~= acc@
                        + unescape_from(mid, i as int)->Some_0);
                }
            }
            i += 1;
        }
    }
    proof {
        assert(i - 1 == mid.len());
        assert(acc@ + unescape_from(mid, i - 1)->Some_0 =~= acc@);
    }
    Some(acc)
}

} // verus!
