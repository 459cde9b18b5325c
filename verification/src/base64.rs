//! Base64 decoding of key material.
//!
//! Inline credentials arrive as base64 text (RFC 4648 alphabet, `=` padding).
//! `decode_b64` accepts exactly the well-formed texts — groups of four
//! characters from the alphabet, with one or two `=` closing the final group
//! — and returns the decoded bytes pinned by `b64_decode`.

use vstd::prelude::*;
use vstd::string::StrSliceExecFns;

verus! {

/// Value of one alphabet character, or a negative number for any character
/// outside the alphabet (`=` included).
pub open spec fn b64_char_val(c: char) -> int {
    if 'A' <= c && c <= 'Z' {
        c as int - 'A' as int
    } else if 'a' <= c && c <= 'z' {
        c as int - 'a' as int + 26
    } else if '0' <= c && c <= '9' {
        c as int - '0' as int + 52
    } else if c == '+' {
        62
    } else if c == '/' {
        63
    } else {
        -1
    }
}

pub open spec fn is_b64_char(c: char) -> bool {
    b64_char_val(c) >= 0
}

/// How many `=` close the text: two, one, or none.
pub open spec fn b64_pad_len(s: Seq<char>) -> int {
    if s.len() >= 1 && s[s.len() - 1] == '=' {
        if s.len() >= 2 && s[s.len() - 2] == '=' {
            2
        } else {
            1
        }
    } else {
        0
    }
}

/// Well-formed base64 text: a multiple of four characters, everything from
/// the alphabet except the closing padding.
pub open spec fn valid_b64(s: Seq<char>) -> bool {
    &&& s.len() % 4 == 0
    &&& forall|i: int| 0 <= i < s.len() - b64_pad_len(s) ==> is_b64_char(#[trigger] s[i])
}

/// The bytes carried by one four-character group: three, or fewer under
/// padding.
pub open spec fn b64_group_bytes(c0: char, c1: char, c2: char, c3: char) -> Seq<u8> {
    let v0 = b64_char_val(c0);
    let v1 = b64_char_val(c1);
    let v2 = b64_char_val(c2);
    let v3 = b64_char_val(c3);
    let b0 = (v0 * 4 + v1 / 16) as u8;
    let b1 = ((v1 % 16) * 16 + v2 / 4) as u8;
    let b2 = ((v2 % 4) * 64 + v3) as u8;
    if c2 == '=' {
        seq![b0]
    } else if c3 == '=' {
        seq![b0, b1]
    } else {
        seq![b0, b1, b2]
    }
}

/// The bytes encoded by well-formed base64 text, group by group.
pub open spec fn b64_decode(s: Seq<char>) -> Seq<u8>
    decreases s.len(),
{
    if s.len() < 4 {
        Seq::empty()
    } else {
        b64_group_bytes(s[0], s[1], s[2], s[3]) + b64_decode(s.skip(4))
    }
}

/// Decoding a prefix that grows by one whole group appends that group's
/// bytes.
proof fn lemma_b64_decode_step(s: Seq<char>, i: int)
    requires
        0 <= i,
        i % 4 == 0,
        i + 4 <= s.len(),
    ensures
        b64_decode(s.take(i + 4)) =~= b64_decode(s.take(i)) + b64_group_bytes(
            s[i],
            s[i + 1],
            s[i + 2],
            s[i + 3],
        ),
    decreases i,
{
    if i == 0 {
        assert(s.take(0) =~= Seq::<char>::empty());
        assert(s.take(4).skip(4) =~= Seq::<char>::empty());
        assert(s.take(4)[0] == s[0] && s.take(4)[1] == s[1] && s.take(4)[2] == s[2] && s.take(4)[3]
            == s[3]);
    } else {
        lemma_b64_decode_step(s.skip(4), i - 4);
        assert(s.take(i + 4).skip(4) =~= s.skip(4).take(i));
        assert(s.take(i).skip(4) =~= s.skip(4).take(i - 4));
        assert(s.skip(4)[i - 4] == s[i] && s.skip(4)[i - 3] == s[i + 1] && s.skip(4)[i - 2] == s[i
            + 2] && s.skip(4)[i - 1] == s[i + 3]);
    }
}

/// Value of one character, `None` outside the alphabet.
pub fn b64_char_value(c: char) -> (r: Option<u8>)
    ensures
        (match r {
            Some(v) => b64_char_val(c) == v as int && v < 64,
            None => !is_b64_char(c),
        }),
{
    if 'A' <= c && c <= 'Z' {
        Some((c as u32 - 'A' as u32) as u8)
    } else if 'a' <= c && c <= 'z' {
        Some((c as u32 - 'a' as u32 + 26) as u8)
    } else if '0' <= c && c <= '9' {
        Some((c as u32 - '0' as u32 + 52) as u8)
    } else if c == '+' {
        Some(62)
    } else if c == '/' {
        Some(63)
    } else {
        None
    }
}

/// Decides well-formedness of base64 text.
pub fn check_b64(s: &str) -> (r: bool)
    ensures
        r == valid_b64(s@),
{
    let n = s.unicode_len();
    if n % 4 != 0 {
        return false;
    }
    let pad: usize = if n >= 1 && s.get_char(n - 1) == '=' {
        if n >= 2 && s.get_char(n - 2) == '=' {
            2
        } else {
            1
        }
    } else {
        0
    };
    assert(pad == b64_pad_len(s@));
    assert(pad <= n) by {
        assert(pad > 0 ==> n >= 1);
        assert(pad == 2 ==> n >= 2);
    }
    let stop = n - pad;
    let mut i: usize = 0;
    while i < stop
        invariant
            i <= stop,
            stop == n - pad,
            pad == b64_pad_len(s@),
            n == s@.len(),
            n % 4 == 0,
            forall|j: int| 0 <= j < i ==> is_b64_char(#[trigger] s@[j]),
        decreases stop - i,
    {
        if b64_char_value(s.get_char(i)).is_none() {
            return false;
        }
        i = i + 1;
    }
    true
}

/// Decodes base64 text, or reports that it is not well formed.
pub fn decode_b64(s: &str) -> (r: Option<Vec<u8>>)
    ensures
        (match r {
            Some(v) => valid_b64(s@) && v@ == b64_decode(s@),
            None => !valid_b64(s@),
        }),
{
    if !check_b64(s) {
        return None;
    }
    let n = s.unicode_len();
    let ghost pad = b64_pad_len(s@);
    let mut out: Vec<u8> = Vec::new();
    let mut i: usize = 0;
    while i < n
        invariant
            valid_b64(s@),
            n == s@.len(),
            n % 4 == 0,
            i % 4 == 0,
            i <= n,
            pad == b64_pad_len(s@),
            out@ == b64_decode(s@.take(i as int)),
        decreases n - i,
    {
        assert(i + 4 <= n);
        let c0 = s.get_char(i);
        let c1 = s.get_char(i + 1);
        let c2 = s.get_char(i + 2);
        let c3 = s.get_char(i + 3);
        proof {
            assert(pad <= 2);
            assert(i < n - pad && i + 1 < n - pad);
            assert(c2 != '=' ==> i + 2 < n - pad) by {
                if i + 2 >= n - pad {
                    assert(pad == 2 && i + 2 == n - 2);
                }
            }
            assert(c3 != '=' ==> i + 3 < n - pad) by {
                if i + 3 >= n - pad {
                    assert(pad >= 1 && i + 3 == n - 1);
                }
            }
            lemma_b64_decode_step(s@, i as int);
        }
        let v0 = match b64_char_value(c0) {
            Some(v) => v,
            None => unreached(),
        };
        let v1 = match b64_char_value(c1) {
            Some(v) => v,
            None => unreached(),
        };
        let b0 = v0 * 4 + v1 / 16;
        if c2 == '=' {
            out.push(b0);
        } else {
            let v2 = match b64_char_value(c2) {
                Some(v) => v,
                None => unreached(),
            };
            let b1 = (v1 % 16) * 16 + v2 / 4;
            if c3 == '=' {
                out.push(b0);
                out.push(b1);
            } else {
                let v3 = match b64_char_value(c3) {
                    Some(v) => v,
                    None => unreached(),
                };
                let b2 = (v2 % 4) * 64 + v3;
                out.push(b0);
                out.push(b1);
                out.push(b2);
            }
        }
        i = i + 4;
        assert(out@ =~= b64_decode(s@.take(i as int)));
    }
    proof {
        assert(s@.take(n as int) =~= s@);
    }
    Some(out)
}

} // verus!
