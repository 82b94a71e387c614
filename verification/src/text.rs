//! Text utilities shared by the protocol parser and the command builder:
//! whitespace tokenization, decimal integer reading and rendering.

use vstd::prelude::*;
use vstd::string::{StrSliceExecFns, StringExecFns};

verus! {

/// Whitespace as the tokenizer understands it: the code points with the
/// Unicode `White_Space` property, exactly those `char::is_whitespace`
/// accepts.
pub open spec fn is_wsp(c: char) -> bool {
    ||| (9 <= c as int && c as int <= 13)
    ||| c == ' '
    ||| c == '\u{85}'
    ||| c == '\u{a0}'
    ||| c == '\u{1680}'
    ||| (0x2000 <= c as int && c as int <= 0x200a)
    ||| c == '\u{2028}'
    ||| c == '\u{2029}'
    ||| c == '\u{202f}'
    ||| c == '\u{205f}'
    ||| c == '\u{3000}'
}

/// Runtime test for [`is_wsp`].
pub fn wsp_char(c: char) -> (r: bool)
    ensures
        r == is_wsp(c),
{
    let u = c as u32;
    (9 <= u && u <= 13) || u == 32 || u == 0x85 || u == 0xa0 || u == 0x1680 || (0x2000 <= u && u
        <= 0x200a) || u == 0x2028 || u == 0x2029 || u == 0x202f || u == 0x205f || u == 0x3000
}

/// The whitespace-separated tokens of `s`, with `cur` the word read so far.
pub open spec fn tokens_go(s: Seq<char>, cur: Seq<char>) -> Seq<Seq<char>>
    decreases s.len(),
{
    if s.len() == 0 {
        if cur.len() == 0 {
            Seq::empty()
        } else {
            seq![cur]
        }
    } else if is_wsp(s[0]) {
        if cur.len() == 0 {
            tokens_go(s.drop_first(), Seq::empty())
        } else {
            seq![cur] + tokens_go(s.drop_first(), Seq::empty())
        }
    } else {
        tokens_go(s.drop_first(), cur.push(s[0]))
    }
}

/// The whitespace-separated tokens of `s`, in order, each one nonempty.
pub open spec fn tokens_of(s: Seq<char>) -> Seq<Seq<char>> {
    tokens_go(s, Seq::empty())
}

/// A decimal digit.
pub open spec fn is_digit(c: char) -> bool {
    48 <= c as int && c as int <= 57
}

/// Numeric value of a digit character.
pub open spec fn digit_val(c: char) -> int {
    c as int - 48
}

/// Value of a digit string, read left to right.
pub open spec fn digits_val(s: Seq<char>) -> int
    decreases s.len(),
{
    if s.len() == 0 {
        0
    } else {
        digits_val(s.drop_last()) * 10 + digit_val(s.last())
    }
}

pub open spec fn all_digits(s: Seq<char>) -> bool {
    forall|i: int| 0 <= i < s.len() ==> is_digit(s[i])
}

/// Meaning of a decimal integer literal: an optional `+` or `-` sign
/// followed by one or more digits; anything else has no value.
pub open spec fn int_of_str(s: Seq<char>) -> Option<int> {
    let body = if s.len() > 0 && (s[0] == '+' || s[0] == '-') {
        s.drop_first()
    } else {
        s
    };
    if body.len() > 0 && all_digits(body) {
        if s.len() > 0 && s[0] == '-' {
            Some(-digits_val(body))
        } else {
            Some(digits_val(body))
        }
    } else {
        None
    }
}

/// [`int_of_str`] restricted to the `isize` range, as `str::parse::<isize>`
/// accepts it: a value out of range is rejected, not wrapped.
pub open spec fn isize_of_str(s: Seq<char>) -> Option<int> {
    match int_of_str(s) {
        Some(v) => if isize::MIN <= v && v <= isize::MAX {
            Some(v)
        } else {
            None
        },
        None => None,
    }
}

proof fn lemma_digits_val_nonneg(s: Seq<char>)
    requires
        all_digits(s),
    ensures
        digits_val(s) >= 0,
    decreases s.len(),
{
    if s.len() > 0 {
        assert(all_digits(s.drop_last()));
        lemma_digits_val_nonneg(s.drop_last());
    }
}

/// With every digit appended the value can only grow.
proof fn lemma_digits_val_prefix(s: Seq<char>, k: int)
    requires
        all_digits(s),
        0 <= k <= s.len(),
    ensures
        digits_val(s) >= digits_val(s.take(k)),
    decreases s.len(),
{
    if s.len() == 0 || k == s.len() {
        assert(s.take(k) =~= s);
    } else {
        let head = s.drop_last();
        assert(all_digits(head));
        assert(head.take(k) =~= s.take(k));
        lemma_digits_val_prefix(head, k);
        lemma_digits_val_nonneg(head);
    }
}

/// Read an `isize` from `s` exactly as `str::parse::<isize>` would.
pub fn parse_isize(s: &str) -> (r: Option<isize>)
    ensures
        match r {
            Some(v) => isize_of_str(s@) == Some(v as int),
            None => isize_of_str(s@) is None,
        },
{
    let n = s.unicode_len();
    if n == 0 {
        return None;
    }
    let first = s.get_char(0);
    let neg = first == '-';
    let start: usize = if first == '-' || first == '+' {
        1
    } else {
        0
    };
    if start == n {
        // A bare sign has no digits.
        return None;
    }
    let ghost body = s@.subrange(start as int, n as int);
    proof {
        if start == 0 {
            assert(body =~= s@);
        } else {
            assert(body =~= s@.drop_first());
        }
    }
    // Accumulate the negated value, so that isize::MIN is reachable.
    let mut acc: isize = 0;
    let mut i: usize = start;
    while i < n
        invariant
            start <= i <= n == s@.len(),
            start <= 1,
            n > start,
            (start == 1) == (s@[0] == '+' || s@[0] == '-'),
            neg == (s@[0] == '-'),
            body == s@.subrange(start as int, n as int),
            body == (if s@[0] == '+' || s@[0] == '-' {
                s@.drop_first()
            } else {
                s@
            }),
            all_digits(s@.subrange(start as int, i as int)),
            acc == -digits_val(s@.subrange(start as int, i as int)),
            acc <= 0,
        decreases n - i,
    {
        let ghost prefix = s@.subrange(start as int, i as int);
        let c = s.get_char(i);
        let u = c as u32;
        if u < 48 || u > 57 {
            proof {
                assert(!is_digit(body[i - start as int]));
            }
            return None;
        }
        let d = (u - 48) as isize;
        let ghost prefix1 = s@.subrange(start as int, i + 1 as int);
        proof {
            assert(prefix1.drop_last() =~= prefix);
            assert(prefix1.last() == s@[i as int]);
            assert(d as int == digit_val(s@[i as int]));
        }
        let overflowed: bool;
        match acc.checked_mul(10) {
            Some(a) => {
                match a.checked_sub(d) {
                    Some(b) => {
                        acc = b;
                        overflowed = false;
                    },
                    None => {
                        overflowed = true;
                    },
                }
            },
            None => {
                overflowed = true;
            },
        }
        if overflowed {
            proof {
                // The value of the digits read so far is already out of
                // range; further digits can only grow it.
                assert(digits_val(prefix1) > isize::MAX as int + 1);
                if all_digits(body) {
                    lemma_digits_val_prefix(body, i + 1 - start as int);
                    assert(body.take(i + 1 - start as int) =~= prefix1);
                }
            }
            return None;
        }
        i = i + 1;
    }
    proof {
        assert(s@.subrange(start as int, i as int) =~= body);
    }
    if neg {
        Some(acc)
    } else if acc == isize::MIN {
        // The magnitude is one more than isize::MAX.
        None
    } else {
        Some(-acc)
    }
}

/// The digit character for `d`.
pub open spec fn digit_char(d: nat) -> char {
    if d == 0 {
        '0'
    } else if d == 1 {
        '1'
    } else if d == 2 {
        '2'
    } else if d == 3 {
        '3'
    } else if d == 4 {
        '4'
    } else if d == 5 {
        '5'
    } else if d == 6 {
        '6'
    } else if d == 7 {
        '7'
    } else if d == 8 {
        '8'
    } else {
        '9'
    }
}

/// The decimal rendering of `n`, most significant digit first.
pub open spec fn dec_digits(n: nat) -> Seq<char>
    decreases n,
{
    if n < 10 {
        seq![digit_char(n)]
    } else {
        dec_digits(n / 10).push(digit_char(n % 10))
    }
}

/// Append the digit character for `d` to `s`.
fn push_digit(s: String, d: usize) -> (r: String)
    requires
        d < 10,
    ensures
        r@ == s@.push(digit_char(d as nat)),
{
    let digits = "0123456789";
    proof {
        reveal_strlit("0123456789");
    }
    let ds = digits.substring_char(d, d + 1);
    let ghost s0 = s@;
    proof {
        assert(ds@ =~= seq![digit_char(d as nat)]);
    }
    let r = s.concat(ds);
    proof {
        assert(r@ =~= s0.push(digit_char(d as nat)));
    }
    r
}

/// Render `n` in decimal.
pub fn usize_string(n: usize) -> (r: String)
    ensures
        r@ == dec_digits(n as nat),
    decreases n,
{
    if n < 10 {
        let r = push_digit(String::new(), n);
        proof {
            assert(Seq::<char>::empty().push(digit_char(n as nat)) =~= seq![
                digit_char(n as nat),
            ]);
        }
        r
    } else {
        let front = usize_string(n / 10);
        push_digit(front, n % 10)
    }
}

/// The decimal rendering of an integer, with a leading minus sign when it
/// is negative.
pub open spec fn dec_int(n: int) -> Seq<char> {
    if n < 0 {
        seq!['-'] + dec_digits((-n) as nat)
    } else {
        dec_digits(n as nat)
    }
}

/// Render `n` in decimal, sign included.
pub fn isize_string(n: isize) -> (r: String)
    ensures
        r@ == dec_int(n as int),
{
    if n >= 0 {
        usize_string(n as usize)
    } else {
        // The magnitude, computed without overflowing at isize::MIN.
        let m: usize = ((-(n + 1)) as usize) + 1;
        let sign = String::from_str("-");
        let digits = usize_string(m);
        let r = sign.concat(digits.as_str());
        proof {
            reveal_strlit("-");
            assert(r@ =~= seq!['-'] + dec_digits(m as nat));
        }
        r
    }
}

/// Split `s` into its whitespace-separated tokens, in order.
pub fn tokenize(s: &str) -> (toks: Vec<String>)
    ensures
        toks.deep_view() == tokens_of(s@),
{
    let n = s.unicode_len();
    let mut toks: Vec<String> = Vec::new();
    // The word currently being read is s[start..i]; start == i means none.
    let mut start: usize = 0;
    let mut i: usize = 0;
    proof {
        assert(toks.deep_view() =~= Seq::<Seq<char>>::empty());
        assert(s@.skip(0) =~= s@);
        assert(s@.subrange(0, 0) =~= Seq::<char>::empty());
        assert(Seq::<Seq<char>>::empty() + tokens_of(s@) =~= tokens_of(s@));
    }
    while i < n
        invariant
            start <= i <= n == s@.len(),
            forall|k: int| start <= k < i ==> !is_wsp(s@[k]),
            toks.deep_view() + tokens_go(
                s@.skip(i as int),
                s@.subrange(start as int, i as int),
            ) =~= tokens_of(s@),
        decreases n - i,
    {
        let ghost cur = s@.subrange(start as int, i as int);
        proof {
            assert(s@.skip(i as int).drop_first() =~= s@.skip(i + 1 as int));
            assert(s@.skip(i as int)[0] == s@[i as int]);
        }
        let c = s.get_char(i);
        if wsp_char(c) {
            if start < i {
                let w = s.substring_char(start, i);
                let ghost old_toks = toks.deep_view();
                toks.push(String::from_str(w));
                proof {
                    assert(toks.deep_view() =~= old_toks.push(cur));
                    assert(old_toks.push(cur) + tokens_go(
                        s@.skip(i + 1 as int),
                        Seq::empty(),
                    ) =~= old_toks + (seq![cur] + tokens_go(
                        s@.skip(i + 1 as int),
                        Seq::empty(),
                    )));
                }
            }
            start = i + 1;
            i = i + 1;
            proof {
                assert(s@.subrange(start as int, i as int) =~= Seq::<char>::empty());
            }
        } else {
            i = i + 1;
            proof {
                assert(s@.subrange(start as int, i as int) =~= cur.push(s@[i - 1]));
            }
        }
    }
    proof {
        assert(s@.skip(i as int) =~= Seq::<char>::empty());
    }
    if start < i {
        let w = s.substring_char(start, i);
        let ghost old_toks = toks.deep_view();
        let ghost cur = s@.subrange(start as int, i as int);
        toks.push(String::from_str(w));
        proof {
            assert(toks.deep_view() =~= old_toks.push(cur));
            assert(old_toks.push(cur) =~= old_toks + seq![cur]);
        }
    } else {
        proof {
            assert(s@.subrange(start as int, i as int) =~= Seq::<char>::empty());
        }
    }
    toks
}

} // verus!
