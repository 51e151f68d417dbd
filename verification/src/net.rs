//! The shapes a validator can ask of a value: numbers, network addresses,
//! URLs and mail addresses, each as a predicate on a sequence of
//! characters together with the function that decides it.
use vstd::prelude::*;
use crate::text::{
    char_is_digit, char_is_hex_digit, char_is_space, digit_value, is_digit, is_hex_digit, is_space,
    is_spaceless, slice,
};

verus! {

/// The views of the elements of `p`.
pub open spec fn views(p: Seq<Vec<char>>) -> Seq<Seq<char>> {
    Seq::new(p.len(), |i: int| p[i]@)
}

/// The pieces of `s` that the occurrences of `sep` part: one more piece
/// than there are occurrences.
pub open spec fn split(s: Seq<char>, sep: char) -> Seq<Seq<char>>
    decreases s.len(),
{
    if s.len() == 0 {
        seq![Seq::empty()]
    } else {
        let rest = split(s.drop_last(), sep);
        if s.last() == sep {
            rest.push(Seq::empty())
        } else {
            rest.drop_last().push(rest.last().push(s.last()))
        }
    }
}

/// Parts `v` at every `sep`.
pub fn split_chars(v: &Vec<char>, sep: char) -> (r: Vec<Vec<char>>)
    ensures
        views(r@) == split(v@, sep),
        r.len() >= 1,
{
    let mut parts: Vec<Vec<char>> = Vec::new();
    let mut cur: Vec<char> = Vec::new();
    let mut i: usize = 0;
    while i < v.len()
        invariant
            i <= v.len(),
            views(parts@).push(cur@) == split(v@.take(i as int), sep),
        decreases v.len() - i,
    {
        proof {
            assert(v@.take(i + 1).drop_last() =~= v@.take(i as int));
            assert(views(parts@).push(cur@).drop_last() =~= views(parts@));
        }
        let ghost before = views(parts@);
        let ghost cur_before = cur@;
        if v[i] == sep {
            parts.push(cur);
            cur = Vec::new();
            proof {
                assert(views(parts@) =~= before.push(cur_before));
            }
        } else {
            cur.push(v[i]);
        }
        i += 1;
    }
    let ghost before = views(parts@);
    let ghost last = cur@;
    parts.push(cur);
    proof {
        assert(v@.take(i as int) =~= v@);
        assert(views(parts@) =~= before.push(last));
    }
    parts
}

/// The last place at which `c` stands in `s`, or -1.
pub open spec fn last_index_of(s: Seq<char>, c: char) -> int
    decreases s.len(),
{
    if s.len() == 0 {
        -1
    } else if s.last() == c {
        s.len() - 1
    } else {
        last_index_of(s.drop_last(), c)
    }
}

/// The last place of `c` holds `c`, and no place after it does.
pub proof fn lemma_last_index_of(s: Seq<char>, c: char)
    ensures
        -1 <= last_index_of(s, c) < s.len(),
        last_index_of(s, c) >= 0 ==> s[last_index_of(s, c)] == c,
        forall|i: int| last_index_of(s, c) < i < s.len() ==> #[trigger] s[i] != c,
    decreases s.len(),
{
    if s.len() > 0 && s.last() != c {
        let t = s.drop_last();
        lemma_last_index_of(t, c);
        assert forall|i: int| last_index_of(s, c) < i < s.len() implies #[trigger] s[i] != c by {
            if i < s.len() - 1 {
                assert(s[i] == t[i]);
            }
        }
    }
}

/// A place `k` that holds `c`, with no `c` after it, is the last one; and
/// where no place holds `c`, there is none.
pub proof fn lemma_last_index_of_is(s: Seq<char>, c: char, k: int)
    requires
        -1 <= k < s.len(),
        k >= 0 ==> s[k] == c,
        forall|i: int| k < i < s.len() ==> #[trigger] s[i] != c,
    ensures
        last_index_of(s, c) == k,
{
    lemma_last_index_of(s, c);
    let n = last_index_of(s, c);
    if n > k {
        assert(s[n] != c);
    } else if n < k {
        assert(s[k] != c);
    }
}

/// `Some(k)` for the last place that holds `c`, `None` where none does.
pub fn find_last(v: &Vec<char>, c: char) -> (r: Option<usize>)
    ensures
        match r {
            Some(k) => k < v.len() && k == last_index_of(v@, c),
            None => last_index_of(v@, c) == -1,
        },
{
    let mut i: usize = v.len();
    while i > 0
        invariant
            i <= v.len(),
            forall|j: int| i <= j < v.len() ==> #[trigger] v@[j] != c,
        decreases i,
    {
        if v[i - 1] == c {
            proof {
                lemma_last_index_of_is(v@, c, i - 1);
            }
            return Some(i - 1);
        }
        i -= 1;
    }
    proof {
        lemma_last_index_of_is(v@, c, -1);
    }
    None
}

/// Every character of `s` is a digit.
pub open spec fn all_digits(s: Seq<char>) -> bool {
    forall|i: int| 0 <= i < s.len() ==> is_digit(#[trigger] s[i])
}

/// Every character of `s` is a digit in base sixteen.
pub open spec fn all_hex_digits(s: Seq<char>) -> bool {
    forall|i: int| 0 <= i < s.len() ==> is_hex_digit(#[trigger] s[i])
}

/// The number that the digits of `s` write in base ten.
pub open spec fn decimal(s: Seq<char>) -> nat
    decreases s.len(),
{
    if s.len() == 0 {
        0
    } else {
        (decimal(s.drop_last()) * 10 + digit_value(s.last())) as nat
    }
}

/// Ten to the power `n`.
pub open spec fn pow10(n: nat) -> nat
    decreases n,
{
    if n == 0 {
        1
    } else {
        10 * pow10((n - 1) as nat)
    }
}

/// A run of `n` digits writes a number below ten to the power `n`.
pub proof fn lemma_decimal_bound(s: Seq<char>)
    requires
        all_digits(s),
    ensures
        decimal(s) < pow10(s.len()),
    decreases s.len(),
{
    if s.len() > 0 {
        let t = s.drop_last();
        assert forall|i: int| 0 <= i < t.len() implies is_digit(#[trigger] t[i]) by {
            assert(t[i] == s[i]);
        }
        lemma_decimal_bound(t);
        assert(is_digit(s[s.len() - 1]));
    }
}

/// The powers of ten grow with the exponent.
pub proof fn lemma_pow10_monotonic(a: nat, b: nat)
    requires
        a <= b,
    ensures
        pow10(a) <= pow10(b),
    decreases b,
{
    if a < b {
        lemma_pow10_monotonic(a, (b - 1) as nat);
    }
}

/// The longest run of digits that is read as a number.
pub const MAX_DIGITS: usize = 18;

/// A run of one to eighteen digits.
pub open spec fn is_number(s: Seq<char>) -> bool {
    1 <= s.len() <= MAX_DIGITS && all_digits(s)
}

/// The value of a run of digits; `None` where `v` is no such run.
pub fn number_of(v: &Vec<char>) -> (r: Option<u64>)
    ensures
        r is Some <==> is_number(v@),
        r is Some ==> r.unwrap() == decimal(v@),
{
    let n = v.len();
    if n == 0 || n > MAX_DIGITS {
        return None;
    }
    let mut acc: u64 = 0;
    let mut i: usize = 0;
    while i < n
        invariant
            i <= n == v.len(),
            n <= MAX_DIGITS,
            all_digits(v@.take(i as int)),
            acc == decimal(v@.take(i as int)),
        decreases n - i,
    {
        let c = v[i];
        if !char_is_digit(c) {
            return None;
        }
        proof {
            let t = v@.take(i + 1);
            assert(t.drop_last() =~= v@.take(i as int));
            assert forall|j: int| 0 <= j < t.len() implies is_digit(#[trigger] t[j]) by {
                if j < i {
                    assert(v@.take(i as int)[j] == t[j]);
                }
            }
            lemma_decimal_bound(t);
            lemma_pow10_monotonic(t.len(), 18);
            assert(pow10(18) == 1_000_000_000_000_000_000) by {
                reveal_with_fuel(pow10, 19);
            }
        }
        acc = acc * 10 + ((c as u64) - ('0' as u64));
        i += 1;
    }
    proof {
        assert(v@.take(i as int) =~= v@);
    }
    Some(acc)
}

/// A whole number in base ten, with an optional `-` before its digits.
pub open spec fn is_integer(s: Seq<char>) -> bool {
    if s.len() > 0 && s[0] == '-' {
        is_number(s.drop_first())
    } else {
        is_number(s)
    }
}

/// The value of a whole number.
pub open spec fn integer_value(s: Seq<char>) -> int {
    if s.len() > 0 && s[0] == '-' {
        -(decimal(s.drop_first()) as int)
    } else {
        decimal(s) as int
    }
}

/// The value of a whole number; `None` where `v` is none.
pub fn integer_of(v: &Vec<char>) -> (r: Option<i64>)
    ensures
        r is Some <==> is_integer(v@),
        r is Some ==> r.unwrap() == integer_value(v@),
{
    if v.len() > 0 && v[0] == '-' {
        let digits = slice(v, 1, v.len());
        proof {
            assert(digits@ =~= v@.drop_first());
        }
        match number_of(&digits) {
            Some(n) => {
                proof {
                    lemma_number_bound(digits@);
                }
                Some(-(n as i64))
            },
            None => None,
        }
    } else {
        match number_of(v) {
            Some(n) => {
                proof {
                    lemma_number_bound(v@);
                }
                Some(n as i64)
            },
            None => None,
        }
    }
}

/// A number of at most eighteen digits is below ten to the power eighteen.
pub proof fn lemma_number_bound(s: Seq<char>)
    requires
        is_number(s),
    ensures
        decimal(s) < 1_000_000_000_000_000_000,
{
    lemma_decimal_bound(s);
    lemma_pow10_monotonic(s.len(), 18);
    assert(pow10(18) == 1_000_000_000_000_000_000) by {
        reveal_with_fuel(pow10, 19);
    }
}

/// A number of at most `digits` digits and at most `max`.
pub open spec fn is_number_within(s: Seq<char>, digits: nat, max: nat) -> bool {
    is_number(s) && s.len() <= digits && decimal(s) <= max
}

/// Whether `v` is a number of at most `digits` digits and at most `max`.
pub fn number_within(v: &Vec<char>, digits: usize, max: u64) -> (r: bool)
    ensures
        r == is_number_within(v@, digits as nat, max as nat),
{
    if v.len() > digits {
        return false;
    }
    match number_of(v) {
        Some(n) => n <= max,
        None => false,
    }
}

/// One of the four numbers of an IPv4 address: 0 to 255, written without
/// a leading zero.
pub open spec fn is_octet(s: Seq<char>) -> bool {
    is_number_within(s, 3, 255) && (s.len() > 1 ==> s[0] != '0')
}

/// Whether `v` is one of the four numbers of an IPv4 address.
pub fn octet(v: &Vec<char>) -> (r: bool)
    ensures
        r == is_octet(v@),
{
    number_within(v, 3, 255) && (v.len() <= 1 || v[0] != '0')
}

/// A port: 0 to 65535, in at most five digits.
pub open spec fn is_port(s: Seq<char>) -> bool {
    is_number_within(s, 5, 65535)
}

/// An IPv4 address: four octets with dots between them.
pub open spec fn is_ipv4(s: Seq<char>) -> bool {
    let p = split(s, '.');
    p.len() == 4 && forall|i: int| 0 <= i < 4 ==> is_octet(#[trigger] p[i])
}

/// Whether `v` is an IPv4 address.
pub fn ipv4(v: &Vec<char>) -> (r: bool)
    ensures
        r == is_ipv4(v@),
{
    let parts = split_chars(v, '.');
    if parts.len() != 4 {
        return false;
    }
    let mut i: usize = 0;
    while i < 4
        invariant
            i <= 4 == parts.len(),
            views(parts@) == split(v@, '.'),
            forall|j: int| 0 <= j < i ==> is_octet(#[trigger] split(v@, '.')[j]),
        decreases 4 - i,
    {
        assert(views(parts@)[i as int] == parts@[i as int]@);
        if !octet(&parts[i]) {
            return false;
        }
        i += 1;
    }
    true
}

/// One of the groups of an IPv6 address: one to four digits in base
/// sixteen.
pub open spec fn is_group(s: Seq<char>) -> bool {
    1 <= s.len() <= 4 && all_hex_digits(s)
}

/// Whether `v` is one of the groups of an IPv6 address.
pub fn group(v: &Vec<char>) -> (r: bool)
    ensures
        r == is_group(v@),
{
    if v.len() == 0 || v.len() > 4 {
        return false;
    }
    let mut i: usize = 0;
    while i < v.len()
        invariant
            i <= v.len(),
            forall|j: int| 0 <= j < i ==> is_hex_digit(#[trigger] v@[j]),
        decreases v.len() - i,
    {
        if !char_is_hex_digit(v[i]) {
            return false;
        }
        i += 1;
    }
    true
}

/// The pieces `p` between the colons of an address are all groups but for
/// the one at `k`, which is empty and stands for the `::`. Where the `::`
/// begins or ends the address, the piece before or after it is empty too.
pub open spec fn is_compressed_at(p: Seq<Seq<char>>, k: int) -> bool {
    let n = p.len() as int;
    &&& 1 <= k <= n - 2
    &&& p[k].len() == 0
    &&& forall|i: int| 0 < i < n - 1 && i != k ==> is_group(#[trigger] p[i])
    &&& is_group(p[0]) || (p[0].len() == 0 && k == 1)
    &&& is_group(p[n - 1]) || (p[n - 1].len() == 0 && k == n - 2)
    &&& n - 1 - (if p[0].len() == 0 { 1int } else { 0int }) - (if p[n - 1].len() == 0 {
        1int
    } else {
        0int
    }) <= 7
}

/// An IPv6 address: eight groups with colons between them, or fewer with
/// the `::` that stands for the groups left out.
pub open spec fn is_ipv6(s: Seq<char>) -> bool {
    let p = split(s, ':');
    ||| p.len() == 8 && forall|i: int| 0 <= i < 8 ==> is_group(#[trigger] p[i])
    ||| exists|k: int| is_compressed_at(p, k)
}

/// Whether the pieces of `parts` from `from` up to `to` are all groups.
fn groups_between(parts: &Vec<Vec<char>>, from: usize, to: usize) -> (r: bool)
    requires
        from <= to <= parts.len(),
    ensures
        r == forall|i: int| from <= i < to ==> is_group(#[trigger] views(parts@)[i]),
{
    let mut i: usize = from;
    while i < to
        invariant
            from <= i <= to <= parts.len(),
            forall|j: int| from <= j < i ==> is_group(#[trigger] views(parts@)[j]),
        decreases to - i,
    {
        assert(views(parts@)[i as int] == parts@[i as int]@);
        if !group(&parts[i]) {
            return false;
        }
        i += 1;
    }
    true
}

/// The first piece strictly inside `parts` that is empty.
fn first_gap(parts: &Vec<Vec<char>>) -> (r: Option<usize>)
    requires
        parts.len() >= 1,
    ensures
        match r {
            Some(k) => 1 <= k <= parts.len() - 2 && views(parts@)[k as int].len() == 0
                && forall|i: int| 0 < i < k ==> (#[trigger] views(parts@)[i]).len() > 0,
            None => forall|i: int| 0 < i < parts.len() - 1 ==> (#[trigger] views(parts@)[i]).len() > 0,
        },
{
    let n = parts.len();
    let mut i: usize = 1;
    while i < n - 1
        invariant
            1 <= i,
            1 <= n == parts.len(),
            forall|j: int| 0 < j < i && j < n - 1 ==> (#[trigger] views(parts@)[j]).len() > 0,
        decreases n - i,
    {
        assert(views(parts@)[i as int] == parts@[i as int]@);
        if parts[i].len() == 0 {
            return Some(i);
        }
        i += 1;
    }
    None
}

/// Whether `v` is an IPv6 address.
pub fn ipv6(v: &Vec<char>) -> (r: bool)
    ensures
        r == is_ipv6(v@),
{
    let parts = split_chars(v, ':');
    let n = parts.len();
    let ghost p = split(v@, ':');
    if n == 8 && groups_between(&parts, 0, 8) {
        return true;
    }
    proof {
        assert(views(parts@)[0] == parts@[0]@);
        assert(views(parts@)[n - 1] == parts@[n - 1]@);
    }
    match first_gap(&parts) {
        None => {
            proof {
                assert forall|k: int| !is_compressed_at(p, k) by {
                    if 1 <= k <= n - 2 {
                        assert(p[k].len() > 0);
                    }
                }
            }
            false
        },
        Some(k) => {
            let head_empty = parts[0].len() == 0;
            let tail_empty = parts[n - 1].len() == 0;
            let inner = groups_between(&parts, 1, k) && groups_between(&parts, k + 1, n - 1);
            let head = if head_empty {
                k == 1
            } else {
                group(&parts[0])
            };
            let tail = if tail_empty {
                k == n - 2
            } else {
                group(&parts[n - 1])
            };
            let mut groups: usize = n - 1;
            if head_empty {
                groups -= 1;
            }
            if tail_empty {
                groups -= 1;
            }
            let ok = inner && head && tail && groups <= 7;
            proof {
                if ok {
                    assert(is_compressed_at(p, k as int));
                } else {
                    assert forall|j: int| !is_compressed_at(p, j) by {
                        if is_compressed_at(p, j) {
                            if j != k {
                                if j < k {
                                    assert(p[j].len() > 0);
                                } else {
                                    assert(is_group(p[k as int]));
                                }
                            }
                        }
                    }
                }
            }
            ok
        },
    }
}

/// An IPv4 or an IPv6 address.
pub open spec fn is_ip(s: Seq<char>) -> bool {
    is_ipv4(s) || is_ipv6(s)
}

/// The host of a socket address: an IPv4 address, or an IPv6 address in
/// square brackets.
pub open spec fn is_host(s: Seq<char>) -> bool {
    ||| is_ipv4(s)
    ||| s.len() >= 2 && s[0] == '[' && s.last() == ']' && is_ipv6(s.subrange(1, s.len() - 1))
}

/// Whether `v` is the host of a socket address.
pub fn host(v: &Vec<char>) -> (r: bool)
    ensures
        r == is_host(v@),
{
    if ipv4(v) {
        return true;
    }
    let n = v.len();
    if n >= 2 && v[0] == '[' && v[n - 1] == ']' {
        let inner = slice(v, 1, n - 1);
        ipv6(&inner)
    } else {
        false
    }
}

/// A socket address: a host, a colon and a port.
pub open spec fn is_socket_addr(s: Seq<char>) -> bool {
    let i = last_index_of(s, ':');
    i >= 0 && is_host(s.subrange(0, i)) && is_port(s.subrange(i + 1, s.len() as int))
}

/// Whether `v` is a socket address.
pub fn socket_addr(v: &Vec<char>) -> (r: bool)
    ensures
        r == is_socket_addr(v@),
{
    match find_last(v, ':') {
        None => false,
        Some(i) => {
            let h = slice(v, 0, i);
            let p = slice(v, i + 1, v.len());
            host(&h) && number_within(&p, 5, 65535)
        },
    }
}

/// An address, or a network: an address, a slash and the length of the
/// prefix, at most 32 for IPv4 and 128 for IPv6.
pub open spec fn is_ip_or_mask(s: Seq<char>) -> bool {
    let i = last_index_of(s, '/');
    if i < 0 {
        is_ip(s)
    } else {
        let addr = s.subrange(0, i);
        let len = s.subrange(i + 1, s.len() as int);
        ||| is_ipv4(addr) && is_number_within(len, 2, 32)
        ||| is_ipv6(addr) && is_number_within(len, 3, 128)
    }
}

/// Whether `v` is an address or a network.
pub fn ip_or_mask(v: &Vec<char>) -> (r: bool)
    ensures
        r == is_ip_or_mask(v@),
{
    match find_last(v, '/') {
        None => ipv4(v) || ipv6(v),
        Some(i) => {
            let addr = slice(v, 0, i);
            let len = slice(v, i + 1, v.len());
            (ipv4(&addr) && number_within(&len, 2, 32)) || (ipv6(&addr) && number_within(
                &len,
                3,
                128,
            ))
        },
    }
}

/// `s` begins with `p`.
pub open spec fn has_prefix(s: Seq<char>, p: Seq<char>) -> bool {
    p.len() <= s.len() && s.subrange(0, p.len() as int) == p
}

/// Whether `v` begins with `p`.
pub fn starts_with(v: &Vec<char>, p: &[char]) -> (r: bool)
    ensures
        r == has_prefix(v@, p@),
{
    if p.len() > v.len() {
        return false;
    }
    let mut i: usize = 0;
    while i < p.len()
        invariant
            i <= p.len() <= v.len(),
            forall|j: int| 0 <= j < i ==> v@[j] == p@[j],
        decreases p.len() - i,
    {
        if v[i] != p[i] {
            proof {
                assert(v@.subrange(0, p@.len() as int)[i as int] == v@[i as int]);
            }
            return false;
        }
        i += 1;
    }
    proof {
        assert(v@.subrange(0, p@.len() as int) =~= p@);
    }
    true
}

/// Whether `v` is free of white space.
pub fn spaceless(v: &Vec<char>) -> (r: bool)
    ensures
        r == is_spaceless(v@),
{
    let mut i: usize = 0;
    while i < v.len()
        invariant
            i <= v.len(),
            forall|j: int| 0 <= j < i ==> !is_space(#[trigger] v@[j]),
        decreases v.len() - i,
    {
        if char_is_space(v[i]) {
            return false;
        }
        i += 1;
    }
    true
}

/// `http://`
pub open spec fn http_scheme() -> Seq<char> {
    seq!['h', 't', 't', 'p', ':', '/', '/']
}

/// `https://`
pub open spec fn https_scheme() -> Seq<char> {
    seq!['h', 't', 't', 'p', 's', ':', '/', '/']
}

/// A web address: `http://` or `https://`, then at least one character,
/// and no white space anywhere.
pub open spec fn is_url(s: Seq<char>) -> bool {
    &&& is_spaceless(s)
    &&& (has_prefix(s, http_scheme()) && s.len() > http_scheme().len()) || (has_prefix(
        s,
        https_scheme(),
    ) && s.len() > https_scheme().len())
}

/// Whether `v` is a web address.
pub fn url(v: &Vec<char>) -> (r: bool)
    ensures
        r == is_url(v@),
{
    let http: [char; 7] = ['h', 't', 't', 'p', ':', '/', '/'];
    let https: [char; 8] = ['h', 't', 't', 'p', 's', ':', '/', '/'];
    proof {
        assert(http@ =~= http_scheme());
        assert(https@ =~= https_scheme());
    }
    spaceless(v) && ((starts_with(v, http.as_slice()) && v.len() > 7) || (starts_with(
        v,
        https.as_slice(),
    ) && v.len() > 8))
}

/// Every piece of `p` has at least one character.
pub open spec fn all_nonempty(p: Seq<Seq<char>>) -> bool {
    forall|i: int| 0 <= i < p.len() ==> (#[trigger] p[i]).len() > 0
}

/// A mail address: one `@`, something before it, and after it a domain of
/// two or more labels with dots between them; no white space anywhere.
pub open spec fn is_email(s: Seq<char>) -> bool {
    let i = last_index_of(s, '@');
    let labels = split(s.subrange(i + 1, s.len() as int), '.');
    &&& is_spaceless(s)
    &&& i > 0
    &&& last_index_of(s.subrange(0, i), '@') == -1
    &&& labels.len() >= 2
    &&& all_nonempty(labels)
}

fn nonempty_all(parts: &Vec<Vec<char>>) -> (r: bool)
    ensures
        r == all_nonempty(views(parts@)),
{
    let mut j: usize = 0;
    while j < parts.len()
        invariant
            j <= parts.len(),
            forall|k: int| 0 <= k < j ==> (#[trigger] views(parts@)[k]).len() > 0,
        decreases parts.len() - j,
    {
        assert(views(parts@)[j as int] == parts@[j as int]@);
        if parts[j].len() == 0 {
            return false;
        }
        j += 1;
    }
    true
}

/// Whether `v` is a mail address.
pub fn email(v: &Vec<char>) -> (r: bool)
    ensures
        r == is_email(v@),
{
    if !spaceless(v) {
        return false;
    }
    match find_last(v, '@') {
        None => false,
        Some(i) => {
            if i == 0 {
                return false;
            }
            let local = slice(v, 0, i);
            if find_last(&local, '@').is_some() {
                return false;
            }
            let domain = slice(v, i + 1, v.len());
            let labels = split_chars(&domain, '.');
            labels.len() >= 2 && nonempty_all(&labels)
        },
    }
}

} // verus!
