use vstd::prelude::*;

verus! {

/// The lower-case hexadecimal digits, by value.
pub const HEX_DIGITS: &'static str = "0123456789abcdef";

/// How a double quote is written inside a JSON string.
pub const QUOTE_ESCAPE: &'static str = "\\\"";

/// How a backslash is written inside a JSON string.
pub const BACKSLASH_ESCAPE: &'static str = "\\\\";

/// The start of a control character written as a unicode escape.
pub const UNICODE_ESCAPE: &'static str = "\\u00";

/// Whether `c` is a control character, which a JSON string cannot hold as it is.
pub open spec fn is_control(c: char) -> bool {
    (c as u32) < 32
}

/// How character `c` is written inside a JSON string: a quote and a backslash
/// behind a backslash, a control character as `\u00` and two hex digits, any
/// other character as it is.
pub open spec fn escape_char(c: char) -> Seq<char> {
    if c == '"' {
        seq!['\\', '"']
    } else if c == '\\' {
        seq!['\\', '\\']
    } else if is_control(c) {
        seq![
            '\\',
            'u',
            '0',
            '0',
            HEX_DIGITS@[(c as u32 / 16) as int],
            HEX_DIGITS@[(c as u32 % 16) as int],
        ]
    } else {
        seq![c]
    }
}

/// `s` as it is written between the quotes of a JSON string.
pub open spec fn escaped(s: Seq<char>) -> Seq<char>
    decreases s.len(),
{
    if s.len() == 0 {
        Seq::empty()
    } else {
        escape_char(s[0]) + escaped(s.drop_first())
    }
}

/// The value of a hexadecimal digit.
pub open spec fn hex_value(c: char) -> int {
    if (c as u32) < 58 {
        c as u32 - 48
    } else {
        c as u32 - 87
    }
}

proof fn lemma_hex_digits()
    ensures
        HEX_DIGITS@.len() == 16,
        forall|d: int| 0 <= d < 16 ==> hex_value(#[trigger] HEX_DIGITS@[d]) == d,
{
    reveal_strlit("0123456789abcdef");
    assert(HEX_DIGITS@ =~= seq![
        '0', '1', '2', '3', '4', '5', '6', '7', '8', '9', 'a', 'b', 'c', 'd', 'e', 'f',
    ]);
}

proof fn lemma_escaped_push(p: Seq<char>, c: char)
    ensures
        escaped(p.push(c)) == escaped(p) + escape_char(c),
    decreases p.len(),
{
    if p.len() == 0 {
        assert(p.push(c).drop_first() =~= Seq::<char>::empty());
        assert(p.push(c)[0] == c);
        assert(escaped(Seq::<char>::empty()) == Seq::<char>::empty());
        assert(escaped(p) == Seq::<char>::empty());
        assert(escaped(p.push(c)) =~= escape_char(c) + escaped(Seq::<char>::empty()));
    } else {
        assert(p.push(c).drop_first() =~= p.drop_first().push(c));
        assert(p.push(c)[0] == p[0]);
        lemma_escaped_push(p.drop_first(), c);
        assert(escaped(p.push(c)) =~= escaped(p) + escape_char(c));
    }
}

/// The written form of one character is never the start of another's: equal
/// texts that start with two written characters start with the same one.
proof fn lemma_escape_char_prefix(c1: char, c2: char, r1: Seq<char>, r2: Seq<char>)
    requires
        escape_char(c1) + r1 == escape_char(c2) + r2,
    ensures
        c1 == c2,
        r1 == r2,
{
    lemma_hex_digits();
    let x = escape_char(c1) + r1;
    let y = escape_char(c2) + r2;
    assert(x[0] == escape_char(c1)[0]);
    assert(y[0] == escape_char(c2)[0]);
    if escape_char(c1).len() > 1 && escape_char(c2).len() > 1 {
        assert(x[1] == escape_char(c1)[1]);
        assert(y[1] == escape_char(c2)[1]);
        if is_control(c1) && is_control(c2) {
            assert(x[4] == escape_char(c1)[4]);
            assert(y[4] == escape_char(c2)[4]);
            assert(x[5] == escape_char(c1)[5]);
            assert(y[5] == escape_char(c2)[5]);
            assert(hex_value(HEX_DIGITS@[(c1 as u32 / 16) as int]) == (c1 as u32 / 16) as int);
            assert(hex_value(HEX_DIGITS@[(c2 as u32 / 16) as int]) == (c2 as u32 / 16) as int);
            assert(hex_value(HEX_DIGITS@[(c1 as u32 % 16) as int]) == (c1 as u32 % 16) as int);
            assert(hex_value(HEX_DIGITS@[(c2 as u32 % 16) as int]) == (c2 as u32 % 16) as int);
            assert(c1 as u32 == c2 as u32);
        }
    }
    assert(c1 == c2);
    assert(r1 =~= x.subrange(escape_char(c1).len() as int, x.len() as int));
    assert(r2 =~= y.subrange(escape_char(c2).len() as int, y.len() as int));
}

/// A written string followed by a quote determines the string and what
/// follows the quote.
pub proof fn lemma_escaped_prefix(a: Seq<char>, b: Seq<char>, s: Seq<char>, t: Seq<char>)
    requires
        s.len() > 0,
        s[0] == '"',
        t.len() > 0,
        t[0] == '"',
        escaped(a) + s == escaped(b) + t,
    ensures
        a == b,
        s == t,
    decreases a.len(),
{
    if a.len() == 0 {
        assert(escaped(a) + s =~= s);
        if b.len() > 0 {
            assert((escaped(b) + t)[0] == escape_char(b[0])[0]);
        }
        assert(escaped(b) + t =~= t);
        assert(a =~= b);
    } else if b.len() == 0 {
        assert(escaped(b) + t =~= t);
        assert((escaped(a) + s)[0] == escape_char(a[0])[0]);
    } else {
        assert(escaped(a) + s =~= escape_char(a[0]) + (escaped(a.drop_first()) + s));
        assert(escaped(b) + t =~= escape_char(b[0]) + (escaped(b.drop_first()) + t));
        lemma_escape_char_prefix(a[0], b[0], escaped(a.drop_first()) + s, escaped(b.drop_first()) + t);
        lemma_escaped_prefix(a.drop_first(), b.drop_first(), s, t);
        assert(a =~= seq![a[0]] + a.drop_first());
        assert(b =~= seq![b[0]] + b.drop_first());
    }
}

/// Writes `s` as it stands between the quotes of a JSON string.
pub fn escape_json_text(s: &str) -> (r: String)
    ensures
        r@ == escaped(s@),
{
    proof {
        lemma_hex_digits();
        reveal_strlit("\\\"");
        reveal_strlit("\\\\");
        reveal_strlit("\\u00");
    }
    let n = s.unicode_len();
    let mut out = String::new();
    let mut i: usize = 0;
    proof {
        assert(s@.take(0) =~= Seq::<char>::empty());
    }
    while i < n
        invariant
            n == s@.len(),
            i <= n,
            out@ == escaped(s@.take(i as int)),
            HEX_DIGITS@.len() == 16,
            QUOTE_ESCAPE@ == seq!['\\', '"'],
            BACKSLASH_ESCAPE@ == seq!['\\', '\\'],
            UNICODE_ESCAPE@ == seq!['\\', 'u', '0', '0'],
        decreases n - i,
    {
        let c = s.get_char(i);
        let ghost before = out@;
        proof {
            assert(s@.take(i + 1) =~= s@.take(i as int).push(c));
            lemma_escaped_push(s@.take(i as int), c);
        }
        if c == '"' {
            out.append(QUOTE_ESCAPE);
        } else if c == '\\' {
            out.append(BACKSLASH_ESCAPE);
        } else if (c as u32) < 32 {
            let code = c as u32;
            out.append(UNICODE_ESCAPE);
            let high = (code / 16) as usize;
            out.append(HEX_DIGITS.substring_char(high, high + 1));
            let low = (code % 16) as usize;
            out.append(HEX_DIGITS.substring_char(low, low + 1));
            proof {
                assert(HEX_DIGITS@.subrange(high as int, high + 1) =~= seq![HEX_DIGITS@[high as int]]);
                assert(HEX_DIGITS@.subrange(low as int, low + 1) =~= seq![HEX_DIGITS@[low as int]]);
            }
        } else {
            out.append(s.substring_char(i, i + 1));
            proof {
                assert(s@.subrange(i as int, i + 1) =~= seq![c]);
            }
        }
        proof {
            assert(out@ =~= before + escape_char(c));
        }
        i = i + 1;
    }
    proof {
        assert(s@.take(n as int) =~= s@);
    }
    out
}

} // verus!
