//! Escaping of arbitrary text for placement inside a JSON string
//! literal, as the request body builder needs: the instruction prompt is
//! embedded verbatim in the body, whatever the caller's input holds.

use vstd::prelude::*;

verus! {

/// The hexadecimal digit for `n`.
pub open spec fn spec_hex_digit(n: int) -> char {
    if n == 0 { '0' } else if n == 1 { '1' } else if n == 2 { '2' } else if n == 3 { '3' }
    else if n == 4 { '4' } else if n == 5 { '5' } else if n == 6 { '6' } else if n == 7 { '7' }
    else if n == 8 { '8' } else if n == 9 { '9' } else if n == 10 { 'a' } else if n == 11 { 'b' }
    else if n == 12 { 'c' } else if n == 13 { 'd' } else if n == 14 { 'e' } else { 'f' }
}

/// What one character becomes inside a JSON string literal: quote and
/// backslash get a backslash, the three common control characters their
/// short escapes, any other control character its `\u00..` form, and
/// everything else stands as it is.
pub open spec fn spec_escaped_char(c: char) -> Seq<char> {
    if c == '"' {
        seq!['\\', '"']
    } else if c == '\\' {
        seq!['\\', '\\']
    } else if c == '\n' {
        seq!['\\', 'n']
    } else if c == '\r' {
        seq!['\\', 'r']
    } else if c == '\t' {
        seq!['\\', 't']
    } else if (c as u32) < 0x20 {
        seq!['\\', 'u', '0', '0', spec_hex_digit((c as u32 / 16) as int), spec_hex_digit(
            (c as u32 % 16) as int,
        )]
    } else {
        seq![c]
    }
}

/// The whole text escaped, character by character, in order.
pub open spec fn spec_escape(s: Seq<char>) -> Seq<char>
    decreases s.len(),
{
    if s.len() == 0 {
        Seq::empty()
    } else {
        spec_escape(s.drop_last()) + spec_escaped_char(s.last())
    }
}

/// Escapes `s` for use inside a JSON string literal.
pub fn json_escape(s: &str) -> (r: String)
    ensures
        r@ == spec_escape(s@),
{
    let n = s.unicode_len();
    let mut out = String::new();
    let mut i: usize = 0;
    proof {
        assert(s@.subrange(0, 0) =~= Seq::<char>::empty());
    }
    while i < n
        invariant
            n == s@.len(),
            i <= n,
            out@ == spec_escape(s@.subrange(0, i as int)),
        decreases n - i,
    {
        let c = s.get_char(i);
    if c == '"' {
        out.append("\\\"");
        proof {
            reveal_strlit("\\\"");
            assert("\\\""@ =~= spec_escaped_char('"'));
        }
    } else if c == '\\' {
        out.append("\\\\");
        proof {
            reveal_strlit("\\\\");
            assert("\\\\"@ =~= spec_escaped_char('\\'));
        }
    } else if c == '\n' {
        out.append("\\n");
        proof {
            reveal_strlit("\\n");
            assert("\\n"@ =~= spec_escaped_char('\n'));
        }
    } else if c == '\r' {
        out.append("\\r");
        proof {
            reveal_strlit("\\r");
            assert("\\r"@ =~= spec_escaped_char('\r'));
        }
    } else if c == '\t' {
        out.append("\\t");
        proof {
            reveal_strlit("\\t");
            assert("\\t"@ =~= spec_escaped_char('\t'));
        }
    } else if c == '\u{0}' {
        out.append("\\u0000");
        proof {
            reveal_strlit("\\u0000");
            assert("\\u0000"@ =~= spec_escaped_char('\u{0}'));
        }
    } else if c == '\u{1}' {
        out.append("\\u0001");
        proof {
            reveal_strlit("\\u0001");
            assert("\\u0001"@ =~= spec_escaped_char('\u{1}'));
        }
    } else if c == '\u{2}' {
        out.append("\\u0002");
        proof {
            reveal_strlit("\\u0002");
            assert("\\u0002"@ =~= spec_escaped_char('\u{2}'));
        }
    } else if c == '\u{3}' {
        out.append("\\u0003");
        proof {
            reveal_strlit("\\u0003");
            assert("\\u0003"@ =~= spec_escaped_char('\u{3}'));
        }
    } else if c == '\u{4}' {
        out.append("\\u0004");
        proof {
            reveal_strlit("\\u0004");
            assert("\\u0004"@ =~= spec_escaped_char('\u{4}'));
        }
    } else if c == '\u{5}' {
        out.append("\\u0005");
        proof {
            reveal_strlit("\\u0005");
            assert("\\u0005"@ =~= spec_escaped_char('\u{5}'));
        }
    } else if c == '\u{6}' {
        out.append("\\u0006");
        proof {
            reveal_strlit("\\u0006");
            assert("\\u0006"@ =~= spec_escaped_char('\u{6}'));
        }
    } else if c == '\u{7}' {
        out.append("\\u0007");
        proof {
            reveal_strlit("\\u0007");
            assert("\\u0007"@ =~= spec_escaped_char('\u{7}'));
        }
    } else if c == '\u{8}' {
        out.append("\\u0008");
        proof {
            reveal_strlit("\\u0008");
            assert("\\u0008"@ =~= spec_escaped_char('\u{8}'));
        }
    } else if c == '\u{b}' {
        out.append("\\u000b");
        proof {
            reveal_strlit("\\u000b");
            assert("\\u000b"@ =~= spec_escaped_char('\u{b}'));
        }
    } else if c == '\u{c}' {
        out.append("\\u000c");
        proof {
            reveal_strlit("\\u000c");
            assert("\\u000c"@ =~= spec_escaped_char('\u{c}'));
        }
    } else if c == '\u{e}' {
        out.append("\\u000e");
        proof {
            reveal_strlit("\\u000e");
            assert("\\u000e"@ =~= spec_escaped_char('\u{e}'));
        }
    } else if c == '\u{f}' {
        out.append("\\u000f");
        proof {
            reveal_strlit("\\u000f");
            assert("\\u000f"@ =~= spec_escaped_char('\u{f}'));
        }
    } else if c == '\u{10}' {
        out.append("\\u0010");
        proof {
            reveal_strlit("\\u0010");
            assert("\\u0010"@ =~= spec_escaped_char('\u{10}'));
        }
    } else if c == '\u{11}' {
        out.append("\\u0011");
        proof {
            reveal_strlit("\\u0011");
            assert("\\u0011"@ =~= spec_escaped_char('\u{11}'));
        }
    } else if c == '\u{12}' {
        out.append("\\u0012");
        proof {
            reveal_strlit("\\u0012");
            assert("\\u0012"@ =~= spec_escaped_char('\u{12}'));
        }
    } else if c == '\u{13}' {
        out.append("\\u0013");
        proof {
            reveal_strlit("\\u0013");
            assert("\\u0013"@ =~= spec_escaped_char('\u{13}'));
        }
    } else if c == '\u{14}' {
        out.append("\\u0014");
        proof {
            reveal_strlit("\\u0014");
            assert("\\u0014"@ =~= spec_escaped_char('\u{14}'));
        }
    } else if c == '\u{15}' {
        out.append("\\u0015");
        proof {
            reveal_strlit("\\u0015");
            assert("\\u0015"@ =~= spec_escaped_char('\u{15}'));
        }
    } else if c == '\u{16}' {
        out.append("\\u0016");
        proof {
            reveal_strlit("\\u0016");
            assert("\\u0016"@ =~= spec_escaped_char('\u{16}'));
        }
    } else if c == '\u{17}' {
        out.append("\\u0017");
        proof {
            reveal_strlit("\\u0017");
            assert("\\u0017"@ =~= spec_escaped_char('\u{17}'));
        }
    } else if c == '\u{18}' {
        out.append("\\u0018");
        proof {
            reveal_strlit("\\u0018");
            assert("\\u0018"@ =~= spec_escaped_char('\u{18}'));
        }
    } else if c == '\u{19}' {
        out.append("\\u0019");
        proof {
            reveal_strlit("\\u0019");
            assert("\\u0019"@ =~= spec_escaped_char('\u{19}'));
        }
    } else if c == '\u{1a}' {
        out.append("\\u001a");
        proof {
            reveal_strlit("\\u001a");
            assert("\\u001a"@ =~= spec_escaped_char('\u{1a}'));
        }
    } else if c == '\u{1b}' {
        out.append("\\u001b");
        proof {
            reveal_strlit("\\u001b");
            assert("\\u001b"@ =~= spec_escaped_char('\u{1b}'));
        }
    } else if c == '\u{1c}' {
        out.append("\\u001c");
        proof {
            reveal_strlit("\\u001c");
            assert("\\u001c"@ =~= spec_escaped_char('\u{1c}'));
        }
    } else if c == '\u{1d}' {
        out.append("\\u001d");
        proof {
            reveal_strlit("\\u001d");
            assert("\\u001d"@ =~= spec_escaped_char('\u{1d}'));
        }
    } else if c == '\u{1e}' {
        out.append("\\u001e");
        proof {
            reveal_strlit("\\u001e");
            assert("\\u001e"@ =~= spec_escaped_char('\u{1e}'));
        }
    } else if c == '\u{1f}' {
        out.append("\\u001f");
        proof {
            reveal_strlit("\\u001f");
            assert("\\u001f"@ =~= spec_escaped_char('\u{1f}'));
        }
    } else {
        let piece = s.substring_char(i, i + 1);
        out.append(piece);
        proof {
            assert(piece@ =~= seq![c]);
            assert(piece@ =~= spec_escaped_char(c));
        }
    }
        proof {
            assert(s@.subrange(0, i + 1).drop_last() =~= s@.subrange(0, i as int));
            assert(s@.subrange(0, i + 1).last() == s@[i as int]);
        }
        i = i + 1;
    }
    proof {
        assert(s@.subrange(0, n as int) =~= s@);
    }
    out
}

} // verus!
