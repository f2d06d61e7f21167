//! Escaping of arbitrary text for use as a C string literal.
//!
//! A string-valued preprocessor define is rendered as a quoted C string
//! literal.  Every backslash is doubled and every double quote gains a
//! preceding backslash, so that the compiled C program sees exactly the
//! original text.  Backslashes must be handled before quotes: otherwise the
//! backslashes inserted for quotes would themselves be doubled.

use vstd::prelude::*;

verus! {

/// How a single character of the input is rendered inside the literal.
pub open spec fn escaped_char(c: char) -> Seq<char> {
    if c == '\\' {
        seq!['\\', '\\']
    } else if c == '"' {
        seq!['\\', '"']
    } else {
        seq![c]
    }
}

/// The whole input rendered for the inside of a C string literal.
pub open spec fn escaped(s: Seq<char>) -> Seq<char>
    decreases s.len(),
{
    if s.len() == 0 {
        Seq::<char>::empty()
    } else {
        escaped_char(s[0]) + escaped(s.skip(1))
    }
}

/// The text a C compiler reads back from the inside of a string literal:
/// a backslash escapes the character after it, every other character
/// stands for itself.
pub open spec fn unescaped(s: Seq<char>) -> Seq<char>
    decreases s.len(),
{
    if s.len() == 0 {
        Seq::<char>::empty()
    } else if s[0] == '\\' && s.len() >= 2 {
        seq![s[1]] + unescaped(s.skip(2))
    } else {
        seq![s[0]] + unescaped(s.skip(1))
    }
}

/// The rendered text with the surrounding quotes of the literal.
pub open spec fn quoted(s: Seq<char>) -> Seq<char> {
    seq!['"'] + s + seq!['"']
}

/// Appending one character to the input appends its rendering to the output.
pub proof fn lemma_escaped_snoc(s: Seq<char>, c: char)
    ensures
        escaped(s.push(c)) == escaped(s) + escaped_char(c),
    decreases s.len(),
{
    let p = s.push(c);
    if s.len() == 0 {
        assert(p[0] == c);
        assert(p.skip(1) =~= Seq::<char>::empty());
        assert(escaped(p) == escaped_char(c) + escaped(Seq::<char>::empty()));
        assert(escaped(p) =~= escaped_char(c));
        assert(escaped(s) + escaped_char(c) =~= escaped_char(c));
    } else {
        assert(p.skip(1) =~= s.skip(1).push(c));
        lemma_escaped_snoc(s.skip(1), c);
        assert(escaped(p) =~= escaped(s) + escaped_char(c));
    }
}

/// Escaping round-trips: the text a C compiler reads back from the rendered
/// literal body is exactly the original text, for every input, in particular
/// for inputs holding both quotes and backslashes.
pub proof fn lemma_escape_round_trip(s: Seq<char>)
    ensures
        unescaped(escaped(s)) == s,
    decreases s.len(),
{
    if s.len() == 0 {
        assert(unescaped(escaped(s)) =~= s);
    } else {
        let c = s[0];
        let rest = escaped(s.skip(1));
        lemma_escape_round_trip(s.skip(1));
        if c == '\\' {
            let e = escaped(s);
            assert(e =~= seq!['\\', '\\'] + rest);
            assert(e[0] == '\\' && e.len() >= 2);
            assert(e[1] == '\\');
            assert(e.skip(2) =~= rest);
            assert(unescaped(e) =~= seq![c] + s.skip(1));
            assert(seq![c] + s.skip(1) =~= s);
        } else if c == '"' {
            let e = escaped(s);
            assert(e =~= seq!['\\', '"'] + rest);
            assert(e[0] == '\\' && e.len() >= 2);
            assert(e[1] == '"');
            assert(e.skip(2) =~= rest);
            assert(unescaped(e) =~= seq![c] + s.skip(1));
            assert(seq![c] + s.skip(1) =~= s);
        } else {
            let e = escaped(s);
            assert(e =~= seq![c] + rest);
            assert(e[0] == c && c != '\\');
            assert(e.skip(1) =~= rest);
            assert(unescaped(e) =~= seq![c] + s.skip(1));
            assert(seq![c] + s.skip(1) =~= s);
        }
    }
}

/// Render `s` for the inside of a C string literal: double every backslash,
/// escape every double quote, leave everything else as it is.
pub fn escape_c_string(s: &str) -> (r: String)
    ensures
        r@ == escaped(s@),
{
    let n = s.unicode_len();
    let mut r = String::new();
    let mut i: usize = 0;
    while i < n
        invariant
            i <= n,
            n == s@.len(),
            r@ == escaped(s@.take(i as int)),
        decreases n - i,
    {
        let c = s.get_char(i);
        if c == '\\' {
            r.append("\\\\");
            proof {
                reveal_strlit("\\\\");
                assert(("\\\\")@ =~= escaped_char(c));
            }
        } else if c == '"' {
            r.append("\\\"");
            proof {
                reveal_strlit("\\\"");
                assert(("\\\"")@ =~= escaped_char(c));
            }
        } else {
            let piece = s.substring_char(i, i + 1);
            proof {
                assert(piece@ =~= escaped_char(c));
            }
            r.append(piece);
        }
        proof {
            lemma_escaped_snoc(s@.take(i as int), s@[i as int]);
            assert(s@.take(i + 1) =~= s@.take(i as int).push(s@[i as int]));
        }
        i = i + 1;
    }
    proof {
        assert(s@.take(n as int) =~= s@);
    }
    r
}

} // verus!
