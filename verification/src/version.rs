//! The version of a Nix installation.

use crate::attr::{lemma_pieces_len, pieces, split};
use crate::text::{append_decimal, decimal, digit, texts};
use vstd::prelude::*;
use vstd::string::*;

verus! {

/// A Nix version: major, minor and patch number.
#[derive(Debug, PartialEq, Eq, Clone, Copy)]
pub struct NixVersion {
    pub major: u32,
    pub minor: u32,
    pub patch: u32,
}

impl NixVersion {
    /// Whether this version is `min` or a later one: the major numbers
    /// decide, then the minor numbers, then the patch numbers.
    pub open spec fn at_least(self, min: NixVersion) -> bool {
        self.major > min.major || (self.major == min.major && (self.minor > min.minor || (
        self.minor == min.minor && self.patch >= min.patch)))
    }

    /// The version as it is written: the three numbers with dots between.
    pub open spec fn text(self) -> Seq<char> {
        decimal(self.major as nat) + "."@ + decimal(self.minor as nat) + "."@ + decimal(
            self.patch as nat,
        )
    }

    /// Whether this version is `min` or a later one.
    pub fn meets(&self, min: &NixVersion) -> (r: bool)
        ensures
            r == self.at_least(*min),
    {
        if self.major != min.major {
            self.major > min.major
        } else if self.minor != min.minor {
            self.minor > min.minor
        } else {
            self.patch >= min.patch
        }
    }

    /// The version as it is written, such as `2.13.0`.
    pub fn to_text(&self) -> (r: String)
        ensures
            r@ == self.text(),
    {
        let mut out = String::new();
        append_decimal(&mut out, self.major as u64);
        out.append(".");
        append_decimal(&mut out, self.minor as u64);
        out.append(".");
        append_decimal(&mut out, self.patch as u64);
        assert(out@ =~= self.text());
        out
    }
}


/// Whether `c` is a decimal digit.
pub open spec fn is_digit(c: char) -> bool {
    '0' <= c && c <= '9'
}

/// Whether `s` is a decimal number: one digit or more, nothing else.
pub open spec fn is_number(s: Seq<char>) -> bool {
    s.len() > 0 && forall|i: int| 0 <= i < s.len() ==> is_digit(#[trigger] s[i])
}

/// The number that the digits of `s` write.
pub open spec fn value(s: Seq<char>) -> nat
    decreases s.len(),
{
    if s.len() == 0 {
        0
    } else {
        value(s.drop_last()) * 10 + ((s.last() as u32 - '0' as u32) as nat)
    }
}

/// The number that `s` writes, where it is a decimal number that fits.
pub open spec fn number(s: Seq<char>) -> Option<u32> {
    if is_number(s) && value(s) <= u32::MAX {
        Some(value(s) as u32)
    } else {
        None
    }
}

/// The version that `text` writes: three decimal numbers with a dot
/// between them, each within the range of its field.
pub open spec fn parsed(text: Seq<char>) -> Option<NixVersion> {
    let parts = pieces(text, '.');
    if parts.len() == 3 && number(parts[0]) is Some && number(parts[1]) is Some && number(
        parts[2],
    ) is Some {
        Some(
            NixVersion {
                major: number(parts[0])->0,
                minor: number(parts[1])->0,
                patch: number(parts[2])->0,
            },
        )
    } else {
        None
    }
}

/// Digits that follow only make a number larger.
proof fn lemma_value_grows(s: Seq<char>, n: int)
    requires
        0 <= n <= s.len(),
        forall|i: int| 0 <= i < s.len() ==> is_digit(#[trigger] s[i]),
    ensures
        value(s.take(n)) <= value(s),
    decreases s.len() - n,
{
    if n < s.len() {
        lemma_value_grows(s, n + 1);
        assert(s.take(n + 1).drop_last() =~= s.take(n));
    } else {
        assert(s.take(n) =~= s);
    }
}

/// Reads a decimal number.
pub fn parse_number(s: &str) -> (r: Option<u32>)
    ensures
        r == number(s@),
{
    let n = s.unicode_len();
    if n == 0 {
        return None;
    }
    let mut acc: u64 = 0;
    let mut i: usize = 0;
    assert(s@.take(0) =~= Seq::empty());
    while i < n
        invariant
            n == s@.len(),
            i <= n,
            forall|j: int| 0 <= j < i ==> is_digit(#[trigger] s@[j]),
            acc == value(s@.take(i as int)),
            acc <= u32::MAX,
        decreases n - i,
    {
        let c = s.get_char(i);
        if !('0' <= c && c <= '9') {
            return None;
        }
        let d: u64 = (c as u32 - '0' as u32) as u64;
        proof {
            assert(s@.take(i + 1).drop_last() =~= s@.take(i as int));
            assert(s@.take(i + 1).last() == c);
        }
        acc = acc * 10 + d;
        i = i + 1;
        if acc > 0xffff_ffff {
            // The rest can only add to it.
            if i < n {
                let mut k: usize = i;
                while k < n
                    invariant
                        n == s@.len(),
                        i <= k <= n,
                        forall|j: int| 0 <= j < k ==> is_digit(#[trigger] s@[j]),
                    decreases n - k,
                {
                    let c = s.get_char(k);
                    if !('0' <= c && c <= '9') {
                        return None;
                    }
                    k = k + 1;
                }
            }
            proof {
                lemma_value_grows(s@, i as int);
            }
            return None;
        }
    }
    assert(s@.take(n as int) =~= s@);
    Some(acc as u32)
}

impl NixVersion {
    /// Reads a version such as `2.13.0`.
    pub fn parse(text: &str) -> (r: Option<NixVersion>)
        ensures
            r == parsed(text@),
    {
        let parts = split(text, '.');
        if parts.len() != 3 {
            return None;
        }
        proof {
            assert(texts(parts@)[0] == parts@[0]@);
            assert(texts(parts@)[1] == parts@[1]@);
            assert(texts(parts@)[2] == parts@[2]@);
        }
        let major = parse_number(parts[0].as_str());
        let minor = parse_number(parts[1].as_str());
        let patch = parse_number(parts[2].as_str());
        match (major, minor, patch) {
            (Some(major), Some(minor), Some(patch)) => Some(NixVersion { major, minor, patch }),
            _ => None,
        }
    }
}


/// The decimal digits of a number are a number without a dot in it, and
/// write that number.
pub proof fn lemma_decimal_reads_back(n: nat)
    ensures
        is_number(decimal(n)),
        value(decimal(n)) == n,
        forall|i: int| 0 <= i < decimal(n).len() ==> #[trigger] decimal(n)[i] != '.',
    decreases n,
{
    let last = digit(n % 10);
    assert(is_digit(last) && (last as u32 - '0' as u32) as nat == n % 10 && last != '.');
    if n < 10 {
        let s = seq![digit(n)];
        assert(s.drop_last() =~= Seq::<char>::empty());
        assert(value(s.drop_last()) == 0);
        assert(s.last() == digit(n));
    } else {
        lemma_decimal_reads_back(n / 10);
        let front = decimal(n / 10);
        let s = front.push(last);
        assert(s.drop_last() =~= front);
        assert(s.last() == last);
    }
}

/// Text without a separator, put behind another text, only makes the
/// last piece of that text longer.
proof fn lemma_pieces_grow(a: Seq<char>, b: Seq<char>, sep: char)
    requires
        forall|i: int| 0 <= i < b.len() ==> #[trigger] b[i] != sep,
    ensures
        pieces(a, sep).len() >= 1,
        pieces(a + b, sep) == pieces(a, sep).update(
            pieces(a, sep).len() - 1,
            pieces(a, sep).last() + b,
        ),
    decreases b.len(),
{
    lemma_pieces_len(a, sep);
    let p = pieces(a, sep);
    let k = p.len() - 1;
    if b.len() == 0 {
        assert(a + b =~= a);
        assert(p.last() + b =~= p.last());
        assert(p.update(k, p.last() + b) =~= p);
    } else {
        let front = b.drop_last();
        let c = b.last();
        lemma_pieces_grow(a, front, sep);
        assert((a + b).drop_last() =~= a + front);
        assert((a + b).last() == c);
        let q = pieces(a + front, sep);
        assert(q.last() == p.last() + front);
        assert((p.last() + front).push(c) =~= p.last() + b);
        assert(q.update(q.len() - 1, q.last().push(c)) =~= p.update(k, p.last() + b));
    }
}

/// A text without a separator, put behind another text and a separator,
/// is one more piece.
proof fn lemma_pieces_next(a: Seq<char>, b: Seq<char>, sep: char)
    requires
        forall|i: int| 0 <= i < b.len() ==> #[trigger] b[i] != sep,
    ensures
        pieces(a + seq![sep] + b, sep) == pieces(a, sep).push(b),
{
    let with_sep = a + seq![sep];
    assert(with_sep.drop_last() =~= a);
    assert(with_sep.last() == sep);
    lemma_pieces_grow(with_sep, b, sep);
    let p = pieces(with_sep, sep);
    assert(p == pieces(a, sep).push(Seq::empty()));
    assert(p.last() + b =~= b);
    assert(p.update(p.len() - 1, p.last() + b) =~= pieces(a, sep).push(b));
}

/// A version that is written out and read again is the same version.
pub proof fn version_text_reads_back(v: NixVersion)
    ensures
        parsed(v.text()) == Some(v),
{
    reveal_strlit(".");
    let a = decimal(v.major as nat);
    let b = decimal(v.minor as nat);
    let c = decimal(v.patch as nat);
    lemma_decimal_reads_back(v.major as nat);
    lemma_decimal_reads_back(v.minor as nat);
    lemma_decimal_reads_back(v.patch as nat);
    assert("."@ =~= seq!['.']);
    let none = Seq::<char>::empty();
    lemma_pieces_grow(none, a, '.');
    assert(none + a =~= a);
    assert(pieces(none, '.') =~= seq![none]);
    assert(pieces(a, '.') =~= seq![a]);
    lemma_pieces_next(a, b, '.');
    lemma_pieces_next(a + seq!['.'] + b, c, '.');
    assert(v.text() =~= a + seq!['.'] + b + seq!['.'] + c);
    assert(pieces(v.text(), '.') =~= seq![a, b, c]);
}

} // verus!
