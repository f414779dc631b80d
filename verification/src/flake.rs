//! The URL of a flake, and the directory it names where it is local.

use crate::attr::FlakeAttr;
use vstd::prelude::*;
use vstd::string::*;

verus! {

/// Whether a character is white space, as Unicode defines it.
pub uninterp spec fn white_space(c: char) -> bool;

/// std's `char::is_whitespace`. The contract only names the result,
/// [`white_space`]: the answer depends on the character alone.
#[verifier::external_body]
fn is_white_space(c: char) -> (r: bool)
    ensures
        r == white_space(c),
{
    c.is_whitespace()
}

/// Where the text without leading white space begins in the first `n`
/// characters of `s`: at the first character that is none, else at `n`.
pub open spec fn lead(s: Seq<char>, n: int) -> int
    decreases n,
{
    if n <= 0 {
        0
    } else if lead(s, n - 1) < n - 1 || !white_space(s[n - 1]) {
        lead(s, n - 1)
    } else {
        n
    }
}

/// Where the text without trailing white space ends, looking no further
/// back than `from`: behind the last character that is none, else at
/// `from`.
pub open spec fn tail(s: Seq<char>, from: int, n: int) -> int
    decreases n - from,
{
    if n <= from {
        from
    } else if white_space(s[n - 1]) {
        tail(s, from, n - 1)
    } else {
        n
    }
}

/// `s` without the white space in front of it and behind it.
pub open spec fn trimmed(s: Seq<char>) -> Seq<char> {
    let from = lead(s, s.len() as int);
    s.subrange(from, tail(s, from, s.len() as int))
}

/// The start of the trimmed text is within the text, everything before
/// it is white space, and the character there, if any, is none.
pub proof fn lemma_lead(s: Seq<char>, n: int)
    requires
        0 <= n <= s.len(),
    ensures
        0 <= lead(s, n) <= n,
        forall|i: int| 0 <= i < lead(s, n) ==> white_space(#[trigger] s[i]),
        lead(s, n) < n ==> !white_space(s[lead(s, n)]),
    decreases n,
{
    if n > 0 {
        lemma_lead(s, n - 1);
    }
}

/// The end of the trimmed text is within the text, everything behind it
/// is white space, and the character before it, if any, is none.
pub proof fn lemma_tail(s: Seq<char>, from: int, n: int)
    requires
        0 <= from <= n <= s.len(),
    ensures
        from <= tail(s, from, n) <= n,
        forall|i: int| tail(s, from, n) <= i < n ==> white_space(#[trigger] s[i]),
        tail(s, from, n) > from ==> !white_space(s[tail(s, from, n) - 1]),
    decreases n - from,
{
    if n > from && white_space(s[n - 1]) {
        lemma_tail(s, from, n - 1);
    }
}

/// Removes the white space in front of a text and behind it.
pub fn trim(s: &str) -> (r: &str)
    ensures
        r@ == trimmed(s@),
{
    let n = s.unicode_len();
    let mut from: usize = 0;
    while from < n && is_white_space(s.get_char(from))
        invariant
            n == s@.len(),
            from <= n,
            from == lead(s@, from as int),
        decreases n - from,
    {
        from = from + 1;
    }
    proof {
        lemma_lead_stays(s@, from as int, n as int);
    }
    let mut to: usize = n;
    while to > from && is_white_space(s.get_char(to - 1))
        invariant
            n == s@.len(),
            from <= to <= n,
            tail(s@, from as int, n as int) == tail(s@, from as int, to as int),
        decreases to - from,
    {
        to = to - 1;
    }
    s.substring_char(from, to)
}

/// Once a character that is no white space is found, the start stays.
proof fn lemma_lead_stays(s: Seq<char>, from: int, n: int)
    requires
        0 <= from <= n <= s.len(),
        from == lead(s, from),
        from < n ==> !white_space(s[from]),
    ensures
        lead(s, n) == from,
    decreases n - from,
{
    if from < n {
        if n - 1 > from {
            lemma_lead_stays(s, from, n - 1);
        }
    }
}

/// A flake URL.
#[derive(Debug, Clone, PartialEq, Eq, Hash)]
pub struct FlakeUrl(pub String);

impl From<String> for FlakeUrl {
    fn from(url: String) -> (r: Self) {
        FlakeUrl(url)
    }
}

impl vstd::std_specs::convert::FromSpecImpl<String> for FlakeUrl {
    open spec fn obeys_from_spec() -> bool {
        true
    }

    open spec fn from_spec(url: String) -> Self {
        FlakeUrl(url)
    }
}

/// Whether `s` begins with `prefix`.
pub open spec fn begins_with(s: Seq<char>, prefix: Seq<char>) -> bool {
    prefix.len() <= s.len() && s.take(prefix.len() as int) == prefix
}

/// Whether `s` begins with `prefix`.
pub fn has_prefix(s: &str, prefix: &str) -> (r: bool)
    ensures
        r == begins_with(s@, prefix@),
{
    let n = prefix.unicode_len();
    if s.unicode_len() < n {
        return false;
    }
    let mut i: usize = 0;
    while i < n
        invariant
            n == prefix@.len(),
            n <= s@.len(),
            i <= n,
            forall|j: int| 0 <= j < i ==> s@[j] == prefix@[j],
        decreases n - i,
    {
        if s.get_char(i) != prefix.get_char(i) {
            assert(s@.take(n as int)[i as int] != prefix@[i as int]);
            return false;
        }
        i = i + 1;
    }
    assert(s@.take(n as int) =~= prefix@);
    true
}

/// Where `c` first stands in the first `n` characters of `s`; `n` where
/// it does not.
pub open spec fn position(s: Seq<char>, c: char, n: int) -> int
    decreases n,
{
    if n <= 0 {
        0
    } else if position(s, c, n - 1) < n - 1 || s[n - 1] == c {
        position(s, c, n - 1)
    } else {
        n
    }
}

/// The position is within the text, `c` stands nowhere before it, and
/// stands there unless the position is the end.
pub proof fn lemma_position(s: Seq<char>, c: char, n: int)
    requires
        0 <= n <= s.len(),
    ensures
        0 <= position(s, c, n) <= n,
        forall|i: int| 0 <= i < position(s, c, n) ==> #[trigger] s[i] != c,
        position(s, c, n) < n ==> s[position(s, c, n)] == c,
    decreases n,
{
    if n > 0 {
        lemma_position(s, c, n - 1);
    }
}

/// Once `c` is found, its first position stays.
proof fn lemma_position_stays(s: Seq<char>, c: char, at: int, n: int)
    requires
        0 <= at <= n <= s.len(),
        at == position(s, c, at),
        at < n ==> s[at] == c,
    ensures
        position(s, c, n) == at,
    decreases n - at,
{
    if at < n {
        if n - 1 > at {
            lemma_position_stays(s, c, at, n - 1);
        }
    }
}

/// A flake URL in two parts: what stands before the first `#`, and the
/// attribute behind it, if there is a `#`.
pub open spec fn attr_split(url: Seq<char>) -> (Seq<char>, Option<Seq<char>>) {
    let at = position(url, '#', url.len() as int);
    if at < url.len() {
        (url.take(at), Some(url.skip(at + 1)))
    } else {
        (url, None)
    }
}

/// The path that a flake URL names: what follows `path:`, or the whole
/// URL where it does not begin so.
pub open spec fn named_path(url: Seq<char>) -> Seq<char> {
    if begins_with(url, "path:"@) {
        url.skip(5)
    } else {
        url
    }
}

/// Whether a path is one of this machine: it begins with a dot or a
/// slash.
pub open spec fn is_local(path: Seq<char>) -> bool {
    path.len() > 0 && (path[0] == '.' || path[0] == '/')
}

impl FlakeUrl {
    /// The directory of the flake, where the URL names one on this
    /// machine.
    pub open spec fn local_path(&self) -> Option<Seq<char>> {
        if is_local(named_path(self.0@)) {
            Some(named_path(self.0@))
        } else {
            None
        }
    }

    /// Reads a flake URL: the text without the white space around it,
    /// which must not be empty.
    pub fn from_str(s: &str) -> (r: Result<FlakeUrl, String>)
        ensures
            trimmed(s@).len() > 0 ==> (r matches Ok(url) && url.0@ == trimmed(s@)),
            trimmed(s@).len() == 0 ==> (r matches Err(e) && e@
                == "Empty string is not a valid Flake URL"@),
    {
        let s = trim(s);
        if s.unicode_len() == 0 {
            Err(String::from_str("Empty string is not a valid Flake URL"))
        } else {
            Ok(FlakeUrl(String::from_str(s)))
        }
    }

    /// Splits the URL at its first `#` into the flake and the attribute.
    pub fn split_attr(&self) -> (r: (FlakeUrl, FlakeAttr))
        ensures
            (r.0.0@, crate::env::text_of(r.1.0)) == attr_split(self.0@),
    {
        let url = self.0.as_str();
        let n = url.unicode_len();
        let mut at: usize = 0;
        while at < n && url.get_char(at) != '#'
            invariant
                n == url@.len(),
                at <= n,
                at == position(url@, '#', at as int),
            decreases n - at,
        {
            at = at + 1;
        }
        proof {
            lemma_position_stays(url@, '#', at as int, n as int);
        }
        if at < n {
            let flake = url.substring_char(0, at);
            let attr = url.substring_char(at + 1, n);
            assert(flake@ =~= url@.take(at as int));
            assert(attr@ =~= url@.skip(at + 1));
            (FlakeUrl(String::from_str(flake)), FlakeAttr(Some(String::from_str(attr))))
        } else {
            (FlakeUrl(self.0.clone()), FlakeAttr(None))
        }
    }

    /// The URL as text.
    pub fn to_text(&self) -> (r: String)
        ensures
            r@ == self.0@,
    {
        self.0.clone()
    }

    /// The directory of the flake, where the URL names one on this
    /// machine.
    pub fn as_local_path(&self) -> (r: Option<&str>)
        ensures
            match r {
                Some(path) => self.local_path() == Some(path@),
                None => self.local_path() is None,
            },
    {
        let url = self.0.as_str();
        proof {
            reveal_strlit("path:");
        }
        let path = if has_prefix(url, "path:") {
            let rest = url.substring_char(5, url.unicode_len());
            assert(rest@ =~= url@.skip(5));
            rest
        } else {
            url
        };
        if path.unicode_len() > 0 && (path.get_char(0) == '.' || path.get_char(0) == '/') {
            Some(path)
        } else {
            None
        }
    }
}

} // verus!
