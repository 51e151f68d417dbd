//! Transformers: the normalisations a field applies to its input before
//! any validator sees it.
//!
//! A transformer never fails. Each has an output domain, the sequences it
//! leaves unchanged, and maps every input into that domain; and no
//! transformer leads out of the domain of another. So a list of
//! transformers, applied in order, is idempotent as a whole.
use vstd::prelude::*;
use crate::text::{
    from_chars, is_lowercase, is_space, is_spaceless, is_trimmed, lemma_drawn_from, lemma_lowercase,
    lemma_lowercase_fixed, lemma_remove_spaces, lemma_remove_spaces_fixed, lemma_trim,
    lemma_trim_fixed, lowercase, lowercase_chars, remove_space_chars, remove_spaces, to_chars, trim,
    trim_chars,
};

verus! {

/// One way to normalise a line of text.
#[derive(Clone, Copy, Debug, PartialEq, Eq)]
pub enum Transformer {
    /// Drops the white space at both ends.
    Trim,
    /// Drops every white-space character.
    RemoveSpaces,
    /// Turns the letters `A` to `Z` into `a` to `z`.
    Lowercase,
}

/// What one transformer makes of `s`.
pub open spec fn transform(t: Transformer, s: Seq<char>) -> Seq<char> {
    match t {
        Transformer::Trim => trim(s),
        Transformer::RemoveSpaces => remove_spaces(s),
        Transformer::Lowercase => lowercase(s),
    }
}

/// The output domain of a transformer.
pub open spec fn normalized(t: Transformer, s: Seq<char>) -> bool {
    match t {
        Transformer::Trim => is_trimmed(s),
        Transformer::RemoveSpaces => is_spaceless(s),
        Transformer::Lowercase => is_lowercase(s),
    }
}

/// What a list of transformers, applied first to last, makes of `s`.
pub open spec fn transform_all(ts: Seq<Transformer>, s: Seq<char>) -> Seq<char>
    decreases ts.len(),
{
    if ts.len() == 0 {
        s
    } else {
        transform(ts.last(), transform_all(ts.drop_last(), s))
    }
}

/// `s` lies in the output domain of every transformer of `ts`.
pub open spec fn normalized_all(ts: Seq<Transformer>, s: Seq<char>) -> bool {
    forall|i: int| 0 <= i < ts.len() ==> normalized(#[trigger] ts[i], s)
}

/// A transformer maps every input into its output domain.
pub proof fn lemma_transform_normalizes(t: Transformer, s: Seq<char>)
    ensures
        normalized(t, transform(t, s)),
{
    match t {
        Transformer::Trim => lemma_trim(s),
        Transformer::RemoveSpaces => lemma_remove_spaces(s),
        Transformer::Lowercase => lemma_lowercase(s),
    }
}

/// A transformer leaves the sequences of its output domain unchanged.
pub proof fn lemma_transform_fixed(t: Transformer, s: Seq<char>)
    requires
        normalized(t, s),
    ensures
        transform(t, s) == s,
{
    match t {
        Transformer::Trim => lemma_trim_fixed(s),
        Transformer::RemoveSpaces => lemma_remove_spaces_fixed(s),
        Transformer::Lowercase => lemma_lowercase_fixed(s),
    }
}

/// Applying a transformer twice is applying it once.
pub proof fn lemma_transform_idempotent(t: Transformer, s: Seq<char>)
    ensures
        transform(t, transform(t, s)) == transform(t, s),
{
    lemma_transform_normalizes(t, s);
    lemma_transform_fixed(t, transform(t, s));
}

/// No transformer leads out of the output domain of another.
pub proof fn lemma_transform_preserves(t: Transformer, u: Transformer, s: Seq<char>)
    requires
        normalized(u, s),
    ensures
        normalized(u, transform(t, s)),
{
    let r = transform(t, s);
    match t {
        Transformer::Trim => {
            lemma_trim(s);
            lemma_drawn_from(r, s);
        },
        Transformer::RemoveSpaces => {
            lemma_remove_spaces(s);
            lemma_drawn_from(r, s);
        },
        Transformer::Lowercase => {
            lemma_lowercase(s);
            if u == Transformer::Lowercase {
            } else if u == Transformer::RemoveSpaces {
                assert forall|i: int| 0 <= i < r.len() implies !is_space(#[trigger] r[i]) by {
                    assert(!is_space(s[i]));
                }
            } else {
                if r.len() > 0 {
                    assert(is_space(r[0]) == is_space(s[0]));
                    assert(is_space(r[r.len() - 1]) == is_space(s[s.len() - 1]));
                }
            }
        },
    }
}

/// After a list of transformers the result lies in the output domain of
/// each of them.
pub proof fn lemma_transform_all_normalizes(ts: Seq<Transformer>, s: Seq<char>)
    ensures
        normalized_all(ts, transform_all(ts, s)),
    decreases ts.len(),
{
    if ts.len() > 0 {
        let head = ts.drop_last();
        let mid = transform_all(head, s);
        lemma_transform_all_normalizes(head, s);
        lemma_transform_normalizes(ts.last(), mid);
        assert forall|i: int| 0 <= i < ts.len() implies normalized(
            #[trigger] ts[i],
            transform_all(ts, s),
        ) by {
            if i < ts.len() - 1 {
                assert(ts[i] == head[i]);
                lemma_transform_preserves(ts.last(), ts[i], mid);
            }
        }
    }
}

/// A list of transformers leaves unchanged what lies in the output domain
/// of each of them.
pub proof fn lemma_transform_all_fixed(ts: Seq<Transformer>, s: Seq<char>)
    requires
        normalized_all(ts, s),
    ensures
        transform_all(ts, s) == s,
    decreases ts.len(),
{
    if ts.len() > 0 {
        let head = ts.drop_last();
        assert forall|i: int| 0 <= i < head.len() implies normalized(#[trigger] head[i], s) by {
            assert(head[i] == ts[i]);
        }
        lemma_transform_all_fixed(head, s);
        lemma_transform_fixed(ts.last(), s);
    }
}

/// Applying a list of transformers twice is applying it once.
pub proof fn lemma_transform_all_idempotent(ts: Seq<Transformer>, s: Seq<char>)
    ensures
        transform_all(ts, transform_all(ts, s)) == transform_all(ts, s),
{
    lemma_transform_all_normalizes(ts, s);
    lemma_transform_all_fixed(ts, transform_all(ts, s));
}

impl Transformer {
    /// Applies this transformer to a sequence of characters.
    pub fn apply_chars(&self, v: &Vec<char>) -> (r: Vec<char>)
        ensures
            r@ == transform(*self, v@),
    {
        match self {
            Transformer::Trim => trim_chars(v),
            Transformer::RemoveSpaces => remove_space_chars(v),
            Transformer::Lowercase => lowercase_chars(v),
        }
    }

    /// Applies this transformer to a string.
    pub fn apply(&self, value: &str) -> (r: String)
        ensures
            r@ == transform(*self, value@),
    {
        let v = to_chars(value);
        let out = self.apply_chars(&v);
        from_chars(&out)
    }
}

/// Applies the transformers of `ts`, first to last, to a sequence of
/// characters.
pub fn apply_all_chars(ts: &Vec<Transformer>, v: Vec<char>) -> (r: Vec<char>)
    ensures
        r@ == transform_all(ts@, v@),
{
    let mut cur = v;
    let mut i: usize = 0;
    while i < ts.len()
        invariant
            i <= ts.len(),
            cur@ == transform_all(ts@.take(i as int), v@),
        decreases ts.len() - i,
    {
        proof {
            assert(ts@.take(i + 1).drop_last() =~= ts@.take(i as int));
        }
        cur = ts[i].apply_chars(&cur);
        i += 1;
    }
    proof {
        assert(ts@.take(i as int) =~= ts@);
    }
    cur
}

/// Applies the transformers of `ts`, first to last, to a string.
pub fn apply_all(ts: &Vec<Transformer>, value: &str) -> (r: String)
    ensures
        r@ == transform_all(ts@, value@),
{
    let out = apply_all_chars(ts, to_chars(value));
    from_chars(&out)
}

} // verus!
