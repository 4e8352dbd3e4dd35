//! Ordered lists of style classes and their composition.

use vstd::prelude::*;

verus! {

/// An ordered collection of style-class tokens.
///
/// Tokens stay in the order in which they were added, and a token that is
/// added twice is held twice: repeating a class is a legitimate way to raise
/// its specificity in a style cascade.
///
/// The view of a set is the sequence of its tokens, each as a sequence of
/// characters.
#[derive(Debug, PartialEq, Eq)]
pub struct ClassSet {
    tokens: Vec<String>,
}

impl View for ClassSet {
    type V = Seq<Seq<char>>;

    closed spec fn view(&self) -> Seq<Seq<char>> {
        self.tokens.deep_view()
    }
}

impl ClassSet {
    /// Creates a set without tokens.
    pub fn new() -> (set: ClassSet)
        ensures
            set@ == Seq::<Seq<char>>::empty(),
    {
        ClassSet { tokens: Vec::new() }
    }

    /// Creates the set that holds `tokens`, in their order.
    pub fn from_vec(tokens: Vec<String>) -> (set: ClassSet)
        ensures
            set@ == tokens.deep_view(),
    {
        ClassSet { tokens }
    }

    /// Returns the tokens of the set, in their order.
    pub fn to_vec(&self) -> (tokens: Vec<String>)
        ensures
            tokens.deep_view() == self@,
    {
        let tokens = self.tokens.clone();
        assert(tokens.deep_view() =~= self.tokens.deep_view());
        tokens
    }

    /// Returns the number of tokens, counting repeated tokens each time.
    pub fn len(&self) -> (n: usize)
        ensures
            n == self@.len(),
    {
        self.tokens.len()
    }

    /// Returns the token at `index`, or `None` past the end.
    pub fn get(&self, index: usize) -> (token: Option<&str>)
        ensures
            index < self@.len() ==> token.is_some() && token.unwrap()@ == self@[index as int],
            index >= self@.len() ==> token.is_none(),
    {
        if index < self.tokens.len() {
            Some(self.tokens[index].as_str())
        } else {
            None
        }
    }

    /// Adds `token` behind the tokens that the set already holds.
    pub fn push(&mut self, token: &str)
        ensures
            final(self)@ == old(self)@.push(token@),
    {
        self.tokens.push(token.to_owned());
        assert(self.tokens.deep_view() =~= old(self).tokens.deep_view().push(token@));
    }
}

impl Clone for ClassSet {
    /// Returns a set with the same tokens in the same order.
    fn clone(&self) -> (copy: ClassSet)
        ensures
            copy@ == self@,
    {
        ClassSet { tokens: self.to_vec() }
    }
}

/// The tokens of `base` followed by the tokens of `extra`.
pub open spec fn composed(base: Seq<Seq<char>>, extra: Seq<Seq<char>>) -> Seq<Seq<char>> {
    base + extra
}

/// Appends every token of `extra` behind every token of `base`.
///
/// Nothing is dropped, reordered or merged: a token that occurs in both
/// arguments occurs in the result once for each occurrence.
pub fn compose(base: ClassSet, extra: ClassSet) -> (all: ClassSet)
    ensures
        all@ == composed(base@, extra@),
        all@.len() == base@.len() + extra@.len(),
{
    let mut tokens = base.tokens;
    let mut rest = extra.tokens;
    tokens.append(&mut rest);
    assert(tokens.deep_view() =~= base.tokens.deep_view() + extra.tokens.deep_view());
    ClassSet { tokens }
}

/// Composition keeps every token where it was put: the result is as long as
/// both arguments together, it starts with the tokens of `base` in their
/// order and goes on with those of `extra` in theirs, and every token occurs
/// in it as often as in `base` and in `extra` taken together.
pub proof fn lemma_compose_keeps_every_token(base: Seq<Seq<char>>, extra: Seq<Seq<char>>)
    ensures
        composed(base, extra).len() == base.len() + extra.len(),
        forall|i: int| 0 <= i < base.len() ==> composed(base, extra)[i] == base[i],
        forall|j: int| 0 <= j < extra.len() ==> composed(base, extra)[base.len() + j] == extra[j],
        forall|token: Seq<char>|
            composed(base, extra).to_multiset().count(token) == base.to_multiset().count(token)
                + extra.to_multiset().count(token),
{
    vstd::seq_lib::lemma_multiset_commutative(base, extra);
}

} // verus!
