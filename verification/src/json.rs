//! JSON string escaping: the escaped form of a character sequence, its exact
//! inverse, and executable routines to produce and consume escaped strings.
//!
//! Quotes, backslashes, newlines, carriage returns and tabs are written as
//! two-character escapes; every other character stands for itself.

use vstd::prelude::*;
use vstd::string::*;

verus! {

/// The escaped form of a single character inside a JSON string.
pub open spec fn escape_char(c: char) -> Seq<char> {
    if c == '"' {
        seq!['\\', '"']
    } else if c == '\\' {
        seq!['\\', '\\']
    } else if c == '\n' {
        seq!['\\', 'n']
    } else if c == '\r' {
        seq!['\\', 'r']
    } else if c == '\t' {
        seq!['\\', 't']
    } else {
        seq![c]
    }
}

/// The escaped form of a whole character sequence.
pub open spec fn escape_string(s: Seq<char>) -> Seq<char>
    decreases s.len(),
{
    if s.len() == 0 {
        Seq::empty()
    } else {
        escape_char(s[0]) + escape_string(s.skip(1))
    }
}

/// The character that a backslash escape stands for, if it is one of the
/// escapes this module produces.
pub open spec fn unescape_char(e: char) -> Option<char> {
    if e == '"' {
        Some('"')
    } else if e == '\\' {
        Some('\\')
    } else if e == 'n' {
        Some('\n')
    } else if e == 'r' {
        Some('\r')
    } else if e == 't' {
        Some('\t')
    } else {
        None
    }
}

/// Reads an escaped string up to and including its closing quote: the result
/// is the unescaped content together with how many characters were consumed.
pub open spec fn unescape_prefix(s: Seq<char>) -> Option<(Seq<char>, int)>
    decreases s.len(),
{
    if s.len() == 0 {
        None
    } else if s[0] == '"' {
        Some((Seq::empty(), 1))
    } else if s[0] == '\\' {
        if s.len() >= 2 {
            match unescape_char(s[1]) {
                Some(c) => match unescape_prefix(s.skip(2)) {
                    Some(p) => Some((seq![c] + p.0, p.1 + 2)),
                    None => None,
                },
                None => None,
            }
        } else {
            None
        }
    } else {
        match unescape_prefix(s.skip(1)) {
            Some(p) => Some((seq![s[0]] + p.0, p.1 + 1)),
            None => None,
        }
    }
}

/// The remainder of `s` after a literal prefix `p`, when `s` starts with `p`.
pub open spec fn strip_prefix(s: Seq<char>, p: Seq<char>) -> Option<Seq<char>> {
    if p.len() <= s.len() && s.take(p.len() as int) == p {
        Some(s.skip(p.len() as int))
    } else {
        None
    }
}

/// Stripping a prefix undoes prepending it.
pub proof fn lemma_strip_prefix(p: Seq<char>, rest: Seq<char>)
    ensures
        strip_prefix(p + rest, p) == Some(rest),
{
    assert((p + rest).take(p.len() as int) =~= p);
    assert((p + rest).skip(p.len() as int) =~= rest);
}

/// Escaping distributes over appending one character at the end.
pub proof fn lemma_escape_push(s: Seq<char>, c: char)
    ensures
        escape_string(s.push(c)) == escape_string(s) + escape_char(c),
    decreases s.len(),
{
    if s.len() == 0 {
        let e = Seq::<char>::empty();
        assert(s.push(c)[0] == c);
        assert(s.push(c).skip(1) =~= e);
        assert(escape_string(s.push(c)) == escape_char(c) + escape_string(e));
        assert(escape_string(e) =~= e);
        assert(escape_char(c) + e =~= escape_char(c));
        assert(s =~= e);
        assert(escape_string(s) + escape_char(c) =~= escape_char(c));
    } else {
        assert(s.push(c)[0] == s[0]);
        assert(s.push(c).skip(1) =~= s.skip(1).push(c));
        lemma_escape_push(s.skip(1), c);
        assert(escape_string(s.push(c)) =~= escape_string(s) + escape_char(c));
    }
}

/// Reading an escaped string back yields exactly the original content, and
/// consumes exactly the escaped content and its closing quote.
pub proof fn lemma_unescape_escape(x: Seq<char>, rest: Seq<char>)
    ensures
        unescape_prefix(escape_string(x) + seq!['"'] + rest)
            == Some((x, escape_string(x).len() as int + 1)),
    decreases x.len(),
{
    let s = escape_string(x) + seq!['"'] + rest;
    if x.len() == 0 {
        assert(escape_string(x) =~= Seq::<char>::empty());
        assert(s =~= seq!['"'] + rest);
        assert(s[0] == '"');
        assert(x =~= Seq::<char>::empty());
    } else {
        let c = x[0];
        let x1 = x.skip(1);
        let rest1 = escape_string(x1) + seq!['"'] + rest;
        lemma_unescape_escape(x1, rest);
        assert(escape_string(x) == escape_char(c) + escape_string(x1));
        if c == '"' || c == '\\' || c == '\n' || c == '\r' || c == '\t' {
            assert(escape_char(c).len() == 2);
            assert(s[0] == escape_char(c)[0]);
            assert(s[1] == escape_char(c)[1]);
            assert(s[0] == '\\');
            assert(unescape_char(s[1]) == Some(c));
            assert(s.skip(2) =~= rest1);
            assert(seq![c] + x1 =~= x);
            assert(escape_string(x).len() == 2 + escape_string(x1).len());
        } else {
            assert(escape_char(c).len() == 1);
            assert(s[0] == escape_char(c)[0]);
            assert(s[0] == c);
            assert(s[0] != '"' && s[0] != '\\');
            assert(s.skip(1) =~= rest1);
            assert(seq![c] + x1 =~= x);
            assert(escape_string(x).len() == 1 + escape_string(x1).len());
        }
    }
}

/// Appends the escaped form of `s` to `out`.
pub fn append_escaped(out: &mut String, s: &str)
    ensures
        final(out)@ == old(out)@ + escape_string(s@),
{
    let n = s.unicode_len();
    let mut i: usize = 0;
    while i < n
        invariant
            i <= n,
            n == s@.len(),
            out@ == old(out)@ + escape_string(s@.take(i as int)),
        decreases n - i,
    {
        let c = s.get_char(i);
        if c == '"' {
            out.push('\\');
            out.push('"');
        } else if c == '\\' {
            out.push('\\');
            out.push('\\');
        } else if c == '\n' {
            out.push('\\');
            out.push('n');
        } else if c == '\r' {
            out.push('\\');
            out.push('r');
        } else if c == '\t' {
            out.push('\\');
            out.push('t');
        } else {
            out.push(c);
        }
        proof {
            lemma_escape_push(s@.take(i as int), s@[i as int]);
            assert(s@.take(i as int).push(s@[i as int]) =~= s@.take(i + 1 as int));
            assert(out@ =~= old(out)@ + escape_string(s@.take(i + 1 as int)));
        }
        i = i + 1;
    }
    proof {
        assert(s@.take(n as int) =~= s@);
    }
}

fn unescape_char_exec(e: char) -> (r: Option<char>)
    ensures
        r == unescape_char(e),
{
    if e == '"' {
        Some('"')
    } else if e == '\\' {
        Some('\\')
    } else if e == 'n' {
        Some('\n')
    } else if e == 'r' {
        Some('\r')
    } else if e == 't' {
        Some('\t')
    } else {
        None
    }
}

/// Reads an escaped string from position `i` of `s` up to its closing quote,
/// returning the unescaped content and the position just past the quote.
pub fn scan_string(s: &Vec<char>, i: usize) -> (r: Option<(Vec<char>, usize)>)
    requires
        i <= s@.len(),
    ensures
        match r {
            Some(p) => {
                &&& unescape_prefix(s@.skip(i as int)) == Some((p.0@, p.1 - i))
                &&& i < p.1 <= s@.len()
            },
            None => unescape_prefix(s@.skip(i as int)) is None,
        },
    decreases s@.len() - i,
{
    if i == s.len() {
        return None;
    }
    let c = s[i];
    proof {
        assert(s@.skip(i as int)[0] == s@[i as int]);
    }
    if c == '"' {
        let content: Vec<char> = Vec::new();
        Some((content, i + 1))
    } else if c == '\\' {
        if i + 1 == s.len() {
            proof {
                assert(s@.skip(i as int).len() == 1);
            }
            return None;
        }
        let e = s[i + 1];
        proof {
            assert(s@.skip(i as int)[1] == s@[i + 1]);
        }
        match unescape_char_exec(e) {
            None => None,
            Some(d) => {
                proof {
                    assert(s@.skip(i as int).skip(2) =~= s@.skip(i + 2));
                }
                match scan_string(s, i + 2) {
                    None => None,
                    Some(p) => {
                        let (mut content, j) = p;
                        content.insert(0, d);
                        proof {
                            let inner = unescape_prefix(s@.skip(i + 2)).unwrap();
                            assert(content@ =~= seq![d] + inner.0);
                        }
                        Some((content, j))
                    },
                }
            },
        }
    } else {
        proof {
            assert(s@.skip(i as int).skip(1) =~= s@.skip(i + 1));
        }
        match scan_string(s, i + 1) {
            None => None,
            Some(p) => {
                let (mut content, j) = p;
                content.insert(0, c);
                proof {
                    let inner = unescape_prefix(s@.skip(i + 1)).unwrap();
                    assert(content@ =~= seq![c] + inner.0);
                }
                Some((content, j))
            },
        }
    }
}

/// Tests whether the characters of `lit` stand at position `i` of `s`; on
/// success the result is the position just past them.
pub fn match_prefix(s: &Vec<char>, i: usize, lit: &str) -> (r: Option<usize>)
    requires
        i <= s@.len(),
    ensures
        match r {
            Some(j) => {
                &&& strip_prefix(s@.skip(i as int), lit@) == Some(s@.skip(j as int))
                &&& j == i + lit@.len()
                &&& i <= j <= s@.len()
            },
            None => strip_prefix(s@.skip(i as int), lit@) is None,
        },
{
    let n = lit.unicode_len();
    let slen = s.len();
    if n > slen - i {
        proof {
            assert(s@.skip(i as int).len() < lit@.len());
        }
        return None;
    }
    let mut k: usize = 0;
    while k < n
        invariant
            k <= n,
            n == lit@.len(),
            slen == s@.len(),
            i + n <= slen,
            forall|m: int| 0 <= m < k ==> s@.skip(i as int)[m] == lit@[m],
        decreases n - k,
    {
        let c = s[i + k];
        let l = lit.get_char(k);
        proof {
            assert(s@.skip(i as int)[k as int] == s@[i + k]);
        }
        if c != l {
            proof {
                let pre = s@.skip(i as int).take(lit@.len() as int);
                assert(pre[k as int] == s@.skip(i as int)[k as int]);
                assert(pre[k as int] != lit@[k as int]);
            }
            return None;
        }
        k = k + 1;
    }
    proof {
        assert(s@.skip(i as int).take(lit@.len() as int) =~= lit@);
        assert(s@.skip(i as int).skip(lit@.len() as int) =~= s@.skip(i + n));
    }
    Some(i + n)
}

} // verus!
