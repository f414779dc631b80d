//! The attribute part of a flake URL.

use crate::text::texts;
use vstd::prelude::*;
use vstd::string::*;

verus! {

/// The attribute output part of a flake URL: `foo` in `.#foo`.
#[derive(Debug, Clone, PartialEq, Eq, Hash)]
pub struct FlakeAttr(pub Option<String>);

/// The pieces of `s` between the occurrences of `sep`: one more piece
/// than there are occurrences, so a text without `sep` is its own single
/// piece, the empty text included.
pub open spec fn pieces(s: Seq<char>, sep: char) -> Seq<Seq<char>>
    decreases s.len(),
{
    if s.len() == 0 {
        seq![Seq::empty()]
    } else {
        let before = pieces(s.drop_last(), sep);
        if s.last() == sep {
            before.push(Seq::empty())
        } else {
            before.update(before.len() - 1, before.last().push(s.last()))
        }
    }
}

/// There is always a piece.
pub proof fn lemma_pieces_len(s: Seq<char>, sep: char)
    ensures
        pieces(s, sep).len() >= 1,
    decreases s.len(),
{
    if s.len() > 0 {
        lemma_pieces_len(s.drop_last(), sep);
    }
}

/// Splits `s` at every `sep`.
pub fn split(s: &str, sep: char) -> (r: Vec<String>)
    ensures
        texts(r@) == pieces(s@, sep),
{
    let n = s.unicode_len();
    let mut parts: Vec<String> = Vec::new();
    let mut start: usize = 0;
    let mut i: usize = 0;
    assert(s@.take(0) =~= Seq::empty());
    assert(texts(parts@).push(s@.subrange(0, 0)) =~= seq![Seq::empty()]);
    while i < n
        invariant
            n == s@.len(),
            start <= i <= n,
            pieces(s@.take(i as int), sep) == texts(parts@).push(s@.subrange(start as int, i as int)),
        decreases n - i,
    {
        let ghost shown = texts(parts@);
        let ghost open_piece = s@.subrange(start as int, i as int);
        let c = s.get_char(i);
        proof {
            let now = s@.take(i + 1);
            assert(now.drop_last() =~= s@.take(i as int));
            assert(now.last() == c);
        }
        if c == sep {
            parts.push(String::from_str(s.substring_char(start, i)));
            start = i + 1;
            assert(texts(parts@) =~= shown.push(open_piece));
            assert(s@.subrange(start as int, start as int) =~= Seq::<char>::empty());
            assert(texts(parts@).push(s@.subrange(start as int, start as int)) =~= shown.push(
                open_piece,
            ).push(Seq::empty()));
        } else {
            assert(s@.subrange(start as int, i + 1) =~= open_piece.push(c));
            assert(shown.push(s@.subrange(start as int, i + 1)) =~= shown.push(open_piece).update(
                shown.len() as int,
                open_piece.push(c),
            ));
        }
        i = i + 1;
    }
    let ghost shown = texts(parts@);
    parts.push(String::from_str(s.substring_char(start, n)));
    assert(s@.take(n as int) =~= s@);
    assert(texts(parts@) =~= shown.push(s@.subrange(start as int, n as int)));
    parts
}

impl FlakeAttr {
    /// The name of the attribute; `default` where none is set.
    pub open spec fn name(&self) -> Seq<char> {
        match self.0 {
            Some(name) => name@,
            None => "default"@,
        }
    }

    /// The nested attributes: the pieces between the dots, none where no
    /// attribute is set.
    pub open spec fn path(&self) -> Seq<Seq<char>> {
        match self.0 {
            Some(name) => pieces(name@, '.'),
            None => Seq::empty(),
        }
    }

    /// Get the attribute name; `default` where none is set.
    pub fn get_name(&self) -> (r: String)
        ensures
            r@ == self.name(),
    {
        match &self.0 {
            Some(name) => name.clone(),
            None => String::from_str("default"),
        }
    }

    /// Whether no explicit attribute is set.
    pub fn is_none(&self) -> (r: bool)
        ensures
            r == (self.0 is None),
    {
        self.0.is_none()
    }

    /// Return the nested attributes, where the one set is separated by
    /// `.`.
    pub fn as_list(&self) -> (r: Vec<String>)
        ensures
            texts(r@) == self.path(),
    {
        match &self.0 {
            Some(name) => split(name.as_str(), '.'),
            None => {
                let r: Vec<String> = Vec::new();
                assert(texts(r@) =~= Seq::empty());
                r
            },
        }
    }
}

} // verus!
