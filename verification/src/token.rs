//! The control tokens that the two contexts of a run exchange, one per line.

use crate::text::chars_of;
use vstd::prelude::*;

verus! {

/// Whether `c` is white space: the code points with the Unicode property
/// `White_Space`.
pub open spec fn is_space(c: char) -> bool {
    let u = c as u32;
    ||| 0x09 <= u <= 0x0d
    ||| u == 0x20
    ||| u == 0x85
    ||| u == 0xa0
    ||| u == 0x1680
    ||| 0x2000 <= u <= 0x200a
    ||| u == 0x2028
    ||| u == 0x2029
    ||| u == 0x202f
    ||| u == 0x205f
    ||| u == 0x3000
}

/// `s` without the white space it starts with.
pub open spec fn trim_start(s: Seq<char>) -> Seq<char>
    decreases s.len(),
{
    if s.len() > 0 && is_space(s.first()) {
        trim_start(s.drop_first())
    } else {
        s
    }
}

/// `s` without the white space it ends with.
pub open spec fn trim_end(s: Seq<char>) -> Seq<char>
    decreases s.len(),
{
    if s.len() > 0 && is_space(s.last()) {
        trim_end(s.drop_last())
    } else {
        s
    }
}

/// `s` without the white space around it.
pub open spec fn trimmed(s: Seq<char>) -> Seq<char> {
    trim_end(trim_start(s))
}

/// A control token.
#[derive(Clone, Copy, Debug, PartialEq, Eq, Structural)]
pub enum Token {
    /// Setup tells the container that the identity mapping is in place.
    Ready,
    /// The container tells setup that it is done.
    Finish,
}

impl Token {
    /// The word that stands for the token.
    pub open spec fn word(self) -> Seq<char> {
        match self {
            Token::Ready => "ready"@,
            Token::Finish => "finish"@,
        }
    }

    /// The line that carries the token: its word and a line feed.
    pub open spec fn spec_line(self) -> Seq<char> {
        self.word().push('\n')
    }

    /// The token that a line carries: the one whose word is the line without
    /// the white space around it, if there is one.
    pub open spec fn spec_parse(line: Seq<char>) -> Option<Token> {
        if trimmed(line) == Token::Ready.word() {
            Some(Token::Ready)
        } else if trimmed(line) == Token::Finish.word() {
            Some(Token::Finish)
        } else {
            None
        }
    }

    /// The line to send for this token.
    pub fn line(self) -> (s: &'static str)
        ensures
            s@ == self.spec_line(),
    {
        proof {
            reveal_strlit("ready");
            reveal_strlit("finish");
            reveal_strlit("ready\n");
            reveal_strlit("finish\n");
        }
        match self {
            Token::Ready => {
                assert("ready\n"@ =~= "ready"@.push('\n'));
                "ready\n"
            },
            Token::Finish => {
                assert("finish\n"@ =~= "finish"@.push('\n'));
                "finish\n"
            },
        }
    }

    /// Reads the token that a received line carries. A line that carries
    /// neither token gives `None`.
    pub fn parse(line: &str) -> (t: Option<Token>)
        ensures
            t == Token::spec_parse(line@),
    {
        let chars = chars_of(line);
        let (from, to) = trimmed_range(&chars);
        if matches_word(&chars, from, to, "ready") {
            Some(Token::Ready)
        } else if matches_word(&chars, from, to, "finish") {
            Some(Token::Finish)
        } else {
            None
        }
    }
}

/// Whether `c` is white space.
pub fn is_space_char(c: char) -> (b: bool)
    ensures
        b == is_space(c),
{
    let u: u32 = c as u32;
    (0x09 <= u && u <= 0x0d) || u == 0x20 || u == 0x85 || u == 0xa0 || u == 0x1680 || (0x2000 <= u
        && u <= 0x200a) || u == 0x2028 || u == 0x2029 || u == 0x202f || u == 0x205f || u == 0x3000
}

proof fn trim_start_skips(s: Seq<char>, k: int)
    requires
        0 <= k <= s.len(),
        forall|i: int| 0 <= i < k ==> is_space(#[trigger] s[i]),
        k < s.len() ==> !is_space(s[k]),
    ensures
        trim_start(s) == s.skip(k),
    decreases k,
{
    if k == 0 {
        assert(s.skip(0) =~= s);
    } else {
        let rest = s.drop_first();
        assert forall|i: int| 0 <= i < k - 1 implies is_space(#[trigger] rest[i]) by {
            assert(rest[i] == s[i + 1]);
        }
        trim_start_skips(rest, k - 1);
        assert(rest.skip(k - 1) =~= s.skip(k));
    }
}

proof fn trim_end_takes(s: Seq<char>, k: int)
    requires
        0 <= k <= s.len(),
        forall|i: int| k <= i < s.len() ==> is_space(#[trigger] s[i]),
        k > 0 ==> !is_space(s[k - 1]),
    ensures
        trim_end(s) == s.take(k),
    decreases s.len() - k,
{
    if k == s.len() {
        assert(s.take(k) =~= s);
    } else {
        let rest = s.drop_last();
        trim_end_takes(rest, k);
        assert(rest.take(k) =~= s.take(k));
    }
}

/// Where the text of `chars` without the white space around it starts and
/// ends.
fn trimmed_range(chars: &Vec<char>) -> (r: (usize, usize))
    ensures
        r.0 <= r.1 <= chars.len(),
        trimmed(chars@) == chars@.subrange(r.0 as int, r.1 as int),
{
    let n = chars.len();
    let mut from: usize = 0;
    while from < n && is_space_char(chars[from])
        invariant
            from <= n,
            n == chars.len(),
            forall|i: int| 0 <= i < from ==> is_space(#[trigger] chars@[i]),
        decreases n - from,
    {
        from += 1;
    }
    let mut to: usize = n;
    while to > from && is_space_char(chars[to - 1])
        invariant
            from <= to <= n,
            n == chars.len(),
            forall|i: int| to <= i < n ==> is_space(#[trigger] chars@[i]),
        decreases to,
    {
        to -= 1;
    }
    proof {
        let s = chars@;
        trim_start_skips(s, from as int);
        let t = s.skip(from as int);
        assert forall|i: int| to - from <= i < t.len() implies is_space(#[trigger] t[i]) by {
            assert(t[i] == s[i + from]);
        }
        trim_end_takes(t, to - from);
        assert(t.take(to - from) =~= s.subrange(from as int, to as int));
    }
    (from, to)
}

/// Whether the characters of `chars` from `from` up to `to` spell `word`.
fn matches_word(chars: &Vec<char>, from: usize, to: usize, word: &str) -> (b: bool)
    requires
        from <= to <= chars.len(),
    ensures
        b == (chars@.subrange(from as int, to as int) == word@),
{
    let w = chars_of(word);
    if w.len() != to - from {
        return false;
    }
    let mut i: usize = 0;
    while i < w.len()
        invariant
            i <= w.len(),
            w.len() == to - from,
            from <= to <= chars.len(),
            w@ == word@,
            forall|j: int| 0 <= j < i ==> chars@[from + j] == w@[j],
        decreases w.len() - i,
    {
        if chars[from + i] != w[i] {
            assert(chars@.subrange(from as int, to as int)[i as int] == chars@[from + i]);
            return false;
        }
        i += 1;
    }
    assert(chars@.subrange(from as int, to as int) =~= w@);
    true
}

/// A token is read back from the line that carries it.
pub proof fn parse_reads_line(t: Token)
    ensures
        Token::spec_parse(t.spec_line()) == Some(t),
{
    reveal_strlit("ready");
    reveal_strlit("finish");
    let w = t.word();
    let l = t.spec_line();
    assert(is_space('\n'));
    assert(!is_space(w[0]));
    assert(!is_space(w[w.len() - 1]));
    trim_start_skips(l, 0);
    assert(l.skip(0) =~= l);
    trim_end_takes(l, w.len() as int);
    assert(l.take(w.len() as int) =~= w);
    assert("ready"@ != "finish"@) by {
        assert("ready"@.len() != "finish"@.len());
    }
}

} // verus!
