//! Validators: the predicates a field holds its normalised value to.
//!
//! The validators of a field run in the order in which it declares them,
//! and the first that fails is the field's error. An empty value is an
//! absent one: only `Required` objects to it, so that a field which does
//! not ask for a value accepts the lack of one whatever else it asks.
use vstd::prelude::*;
use crate::net::{
    email, integer_of, integer_value, ip_or_mask, is_email, is_integer, is_ip_or_mask,
    is_socket_addr, is_url, socket_addr, url,
};
use crate::text::to_chars;

verus! {

/// One thing to ask of a line of text.
#[derive(Clone, Copy, Debug, PartialEq, Eq)]
pub enum Validator {
    /// The value is not empty.
    Required,
    /// The value is a mail address.
    IsEmail,
    /// The value is a web address.
    IsUrl,
    /// The value is a socket address: host, colon, port.
    IsSocketAddr,
    /// The value is an IP address, or one with a prefix length.
    IsIpOrMask,
    /// The value has at least this many characters.
    MinLength(usize),
    /// The value has at most this many characters.
    MaxLength(usize),
    /// The value is a whole number, and at least this.
    MinValue(i64),
    /// The value is a whole number, and at most this.
    MaxValue(i64),
}

/// Whether one validator accepts `s`.
pub open spec fn accepts(v: Validator, s: Seq<char>) -> bool {
    match v {
        Validator::Required => s.len() > 0,
        Validator::IsEmail => is_email(s),
        Validator::IsUrl => is_url(s),
        Validator::IsSocketAddr => is_socket_addr(s),
        Validator::IsIpOrMask => is_ip_or_mask(s),
        Validator::MinLength(n) => s.len() >= n,
        Validator::MaxLength(n) => s.len() <= n,
        Validator::MinValue(n) => is_integer(s) && integer_value(s) >= n,
        Validator::MaxValue(n) => is_integer(s) && integer_value(s) <= n,
    }
}

/// The first validator of `vs` that does not accept `s`.
pub open spec fn first_failure(vs: Seq<Validator>, s: Seq<char>) -> Option<Validator>
    decreases vs.len(),
{
    if vs.len() == 0 {
        None
    } else if !accepts(vs[0], s) {
        Some(vs[0])
    } else {
        first_failure(vs.drop_first(), s)
    }
}

/// Whether `vs` asks for a value.
pub open spec fn is_required(vs: Seq<Validator>) -> bool {
    exists|i: int| 0 <= i < vs.len() && vs[i] == Validator::Required
}

/// What the validators `vs` object to in `s`: nothing, or the validator
/// that failed.
pub open spec fn check(vs: Seq<Validator>, s: Seq<char>) -> Option<Validator> {
    if s.len() == 0 {
        if is_required(vs) {
            Some(Validator::Required)
        } else {
            None
        }
    } else {
        first_failure(vs, s)
    }
}

/// The first failure is a validator of the list that rejects the value,
/// and every validator before it accepts the value; there is none exactly
/// when every validator accepts.
pub proof fn lemma_first_failure(vs: Seq<Validator>, s: Seq<char>)
    ensures
        match first_failure(vs, s) {
            None => forall|i: int| 0 <= i < vs.len() ==> accepts(#[trigger] vs[i], s),
            Some(v) => exists|k: int|
                0 <= k < vs.len() && #[trigger] vs[k] == v && !accepts(v, s) && forall|j: int|
                    0 <= j < k ==> accepts(#[trigger] vs[j], s),
        },
    decreases vs.len(),
{
    if vs.len() > 0 && accepts(vs[0], s) {
        let t = vs.drop_first();
        lemma_first_failure(t, s);
        match first_failure(t, s) {
            None => {
                assert forall|i: int| 0 <= i < vs.len() implies accepts(#[trigger] vs[i], s) by {
                    if i > 0 {
                        assert(vs[i] == t[i - 1]);
                    }
                }
            },
            Some(v) => {
                let k = choose|k: int|
                    0 <= k < t.len() && #[trigger] t[k] == v && !accepts(v, s) && forall|j: int|
                        0 <= j < k ==> accepts(#[trigger] t[j], s);
                assert(vs[k + 1] == v);
                assert forall|j: int| 0 <= j < k + 1 implies accepts(#[trigger] vs[j], s) by {
                    if j > 0 {
                        assert(vs[j] == t[j - 1]);
                    }
                }
            },
        }
    } else if vs.len() > 0 {
        assert(vs[0] == vs[0]);
    }
}

/// A value passes exactly when it is empty and not asked for, or not
/// empty and accepted by every validator.
pub proof fn lemma_check_passes(vs: Seq<Validator>, s: Seq<char>)
    ensures
        check(vs, s) is None <==> if s.len() == 0 {
            !is_required(vs)
        } else {
            forall|i: int| 0 <= i < vs.len() ==> accepts(#[trigger] vs[i], s)
        },
{
    lemma_first_failure(vs, s);
    if s.len() > 0 {
        match first_failure(vs, s) {
            None => {},
            Some(v) => {
                let k = choose|k: int|
                    0 <= k < vs.len() && #[trigger] vs[k] == v && !accepts(v, s) && forall|j: int|
                        0 <= j < k ==> accepts(#[trigger] vs[j], s);
                assert(!accepts(vs[k], s));
            },
        }
    }
}

impl Validator {
    /// Whether this validator accepts a sequence of characters.
    pub fn accepts_chars(&self, v: &Vec<char>) -> (r: bool)
        ensures
            r == accepts(*self, v@),
    {
        match self {
            Validator::Required => v.len() > 0,
            Validator::IsEmail => email(v),
            Validator::IsUrl => url(v),
            Validator::IsSocketAddr => socket_addr(v),
            Validator::IsIpOrMask => ip_or_mask(v),
            Validator::MinLength(n) => v.len() >= *n,
            Validator::MaxLength(n) => v.len() <= *n,
            Validator::MinValue(n) => match integer_of(v) {
                Some(x) => x >= *n,
                None => false,
            },
            Validator::MaxValue(n) => match integer_of(v) {
                Some(x) => x <= *n,
                None => false,
            },
        }
    }

    /// Whether this validator accepts a string.
    pub fn accepts_str(&self, value: &str) -> (r: bool)
        ensures
            r == accepts(*self, value@),
    {
        let v = to_chars(value);
        self.accepts_chars(&v)
    }

    /// Whether this validator is `Required`.
    pub fn is_required(&self) -> (r: bool)
        ensures
            r == (*self == Validator::Required),
    {
        match self {
            Validator::Required => true,
            _ => false,
        }
    }
}

/// Whether one of the validators is `Required`.
pub fn has_required(vs: &Vec<Validator>) -> (r: bool)
    ensures
        r == is_required(vs@),
{
    let mut i: usize = 0;
    while i < vs.len()
        invariant
            i <= vs.len(),
            forall|j: int| 0 <= j < i ==> vs@[j] != Validator::Required,
        decreases vs.len() - i,
    {
        if vs[i].is_required() {
            return true;
        }
        i += 1;
    }
    false
}

/// Runs the validators over a sequence of characters.
pub fn check_chars(vs: &Vec<Validator>, v: &Vec<char>) -> (r: Option<Validator>)
    ensures
        r == check(vs@, v@),
{
    if v.len() == 0 {
        if has_required(vs) {
            Some(Validator::Required)
        } else {
            None
        }
    } else {
        let mut i: usize = 0;
        proof {
            assert(vs@.skip(0) =~= vs@);
        }
        while i < vs.len()
            invariant
                i <= vs.len(),
                v@.len() > 0,
                first_failure(vs@, v@) == first_failure(vs@.skip(i as int), v@),
            decreases vs.len() - i,
        {
            proof {
                assert(vs@.skip(i as int).drop_first() =~= vs@.skip(i + 1));
                assert(vs@.skip(i as int)[0] == vs@[i as int]);
            }
            if !vs[i].accepts_chars(v) {
                return Some(vs[i]);
            }
            i += 1;
        }
        None
    }
}

/// Runs the validators over a string.
pub fn check_str(vs: &Vec<Validator>, value: &str) -> (r: Option<Validator>)
    ensures
        r == check(vs@, value@),
{
    let v = to_chars(value);
    check_chars(vs, &v)
}

} // verus!
