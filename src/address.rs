//! Splitting a human-readable address into its user and domain parts.

use vstd::prelude::*;
use vstd::string::*;

use crate::error::Bip353Error;
use crate::text::{is_ws, trim_end, trim_start, chars_of, count_char, find_char, first_index, lemma_first_index_bounds, trim, trim_bounds};

verus! {

/// The currency sign that may stand before an address.
pub open spec fn is_currency_sign(c: char) -> bool {
    c == '\u{20bf}'
}

/// `s` without one leading currency sign, if it has one.
pub open spec fn strip_sign(s: Seq<char>) -> Seq<char> {
    if s.len() > 0 && is_currency_sign(s[0]) {
        s.drop_first()
    } else {
        s
    }
}

/// The user and domain of an address: trimmed, with one leading currency sign
/// removed, split at its only `@`, each part trimmed again and non-empty.
pub open spec fn parse_spec(s: Seq<char>) -> Option<(Seq<char>, Seq<char>)> {
    let t = strip_sign(trim(s));
    if count_char(t, '@') != 1 {
        None
    } else {
        let i = first_index(t, '@')->Some_0;
        let user = trim(t.subrange(0, i));
        let domain = trim(t.subrange(i + 1, t.len() as int));
        if user.len() == 0 || domain.len() == 0 {
            None
        } else {
            Some((user, domain))
        }
    }
}

/// Parses `user@domain` or `₿user@domain` into its user and domain parts.
pub fn parse_address(address: &str) -> (r: Result<(String, String), Bip353Error>)
    ensures
        parse_spec(address@) is None <==> r is Err,
        r matches Err(e) ==> e is InvalidAddress,
        r matches Ok(p) ==> parse_spec(address@) == Some((p.0@, p.1@)),
{
    let v = chars_of(address);
    let n = v.len();
    let (a0, b) = trim_bounds(&v, 0, n);
    let a = if a0 < b && v[a0] == '\u{20bf}' {
        a0 + 1
    } else {
        a0
    };
    proof {
        let tr = v@.subrange(a0 as int, b as int);
        assert(v@.subrange(0, n as int) =~= v@);
        if a0 < b && v@[a0 as int] == '\u{20bf}' {
            assert(tr.drop_first() =~= v@.subrange(a as int, b as int));
        }
    }
    let ghost t = v@.subrange(a as int, b as int);
    assert(t == strip_sign(trim(address@)));
    let (count, first) = find_char(&v, a, b, '@');
    if count != 1 {
        return Err(Bip353Error::InvalidAddress(String::from_str("Address must be in format user@domain")));
    }
    proof {
        lemma_first_index_bounds(t, '@');
    }
    let at = match first {
        Some(i) => i,
        None => {
            proof {
                lemma_count_zero(t, '@');
            }
            return Err(Bip353Error::InvalidAddress(String::from_str("Address must be in format user@domain")));
        }
    };
    let (ua, ub) = trim_bounds(&v, a, at);
    let (da, db) = trim_bounds(&v, at + 1, b);
    proof {
        assert(t.subrange(0, at - a) =~= v@.subrange(a as int, at as int));
        assert(t.subrange(at - a + 1, t.len() as int) =~= v@.subrange(at + 1, b as int));
    }
    if ua == ub || da == db {
        return Err(Bip353Error::InvalidAddress(String::from_str("User and domain cannot be empty")));
    }
    let user = String::from_str(address.substring_char(ua, ub));
    let domain = String::from_str(address.substring_char(da, db));
    Ok((user, domain))
}

/// A sequence without `c` counts no `c`.
proof fn lemma_count_zero(s: Seq<char>, c: char)
    requires
        forall|j: int| 0 <= j < s.len() ==> s[j] != c,
    ensures
        count_char(s, c) == 0,
    decreases s.len(),
{
    if s.len() > 0 {
        lemma_count_zero(s.drop_last(), c);
    }
}


/// A sequence of which each element is whitespace.
pub open spec fn all_ws(w: Seq<char>) -> bool {
    forall|j: int| 0 <= j < w.len() ==> is_ws(#[trigger] w[j])
}

/// A sequence in which `c` does not occur.
pub open spec fn lacks(s: Seq<char>, c: char) -> bool {
    forall|j: int| 0 <= j < s.len() ==> #[trigger] s[j] != c
}

/// A non-empty sequence that neither starts nor ends with whitespace.
pub open spec fn is_trimmed_part(s: Seq<char>) -> bool {
    s.len() > 0 && !is_ws(s[0]) && !is_ws(s.last()) && lacks(s, '@')
}

proof fn lemma_trim_start_ws(w: Seq<char>, r: Seq<char>)
    requires
        all_ws(w),
        r.len() == 0 || !is_ws(r[0]),
    ensures
        trim_start(w + r) == r,
    decreases w.len(),
{
    if w.len() == 0 {
        assert(w + r =~= r);
    } else {
        assert((w + r).drop_first() =~= w.drop_first() + r);
        assert((w + r)[0] == w[0]);
        lemma_trim_start_ws(w.drop_first(), r);
    }
}

proof fn lemma_trim_end_ws(r: Seq<char>, w: Seq<char>)
    requires
        all_ws(w),
        r.len() == 0 || !is_ws(r.last()),
    ensures
        trim_end(r + w) == r,
    decreases w.len(),
{
    if w.len() == 0 {
        assert(r + w =~= r);
    } else {
        assert((r + w).drop_last() =~= r + w.drop_last());
        assert((r + w).last() == w.last());
        lemma_trim_end_ws(r, w.drop_last());
    }
}

proof fn lemma_count_concat(a: Seq<char>, b: Seq<char>, c: char)
    ensures
        count_char(a + b, c) == count_char(a, c) + count_char(b, c),
    decreases b.len(),
{
    if b.len() == 0 {
        assert(a + b =~= a);
    } else {
        assert((a + b).drop_last() =~= a + b.drop_last());
        lemma_count_concat(a, b.drop_last(), c);
    }
}

proof fn lemma_count_lacks(s: Seq<char>, c: char)
    ensures
        lacks(s, c) <==> count_char(s, c) == 0,
    decreases s.len(),
{
    if s.len() > 0 {
        lemma_count_lacks(s.drop_last(), c);
        assert(lacks(s, c) <==> lacks(s.drop_last(), c) && s.last() != c) by {
            if lacks(s.drop_last(), c) && s.last() != c {
                assert forall|j: int| 0 <= j < s.len() implies #[trigger] s[j] != c by {
                    if j < s.len() - 1 {
                        assert(s[j] == s.drop_last()[j]);
                    }
                }
            }
            if lacks(s, c) {
                assert forall|j: int| 0 <= j < s.drop_last().len() implies #[trigger] s.drop_last()[j] != c by {
                    assert(s[j] == s.drop_last()[j]);
                }
            }
        }
    }
}

proof fn lemma_count_at_sign()
    ensures
        count_char(seq!['@'], '@') == 1,
{
    assert(seq!['@'].drop_last() =~= Seq::<char>::empty());
    assert(count_char(Seq::<char>::empty(), '@') == 0);
    assert(seq!['@'].last() == '@');
}

proof fn lemma_first_index_at(s: Seq<char>, c: char, i: int)
    requires
        0 <= i < s.len(),
        s[i] == c,
        forall|j: int| 0 <= j < i ==> s[j] != c,
    ensures
        first_index(s, c) == Some(i),
    decreases s.len(),
{
    if i < s.len() - 1 {
        lemma_first_index_at(s.drop_last(), c, i);
    } else {
        lemma_first_index_bounds(s.drop_last(), c);
    }
}

proof fn lemma_trim_start_shape(x: Seq<char>, c: char)
    ensures
        trim_start(x).len() > 0 ==> !is_ws(trim_start(x)[0]),
        lacks(x, c) ==> lacks(trim_start(x), c),
    decreases x.len(),
{
    if x.len() > 0 && is_ws(x[0]) {
        lemma_trim_start_shape(x.drop_first(), c);
        if lacks(x, c) {
            assert forall|j: int| 0 <= j < x.drop_first().len() implies #[trigger] x.drop_first()[j] != c by {
                assert(x.drop_first()[j] == x[j + 1]);
            }
        }
    }
}

proof fn lemma_trim_end_shape(y: Seq<char>)
    ensures
        trim_end(y).len() <= y.len(),
        trim_end(y) == y.subrange(0, trim_end(y).len() as int),
        trim_end(y).len() > 0 ==> !is_ws(trim_end(y).last()),
    decreases y.len(),
{
    if y.len() > 0 && is_ws(y.last()) {
        lemma_trim_end_shape(y.drop_last());
        assert(y.drop_last().subrange(0, trim_end(y).len() as int) =~= y.subrange(
            0,
            trim_end(y).len() as int,
        ));
    } else {
        assert(y.subrange(0, y.len() as int) =~= y);
    }
}

proof fn lemma_trim_shape(x: Seq<char>, c: char)
    ensures
        trim(x).len() > 0 ==> !is_ws(trim(x)[0]) && !is_ws(trim(x).last()),
        lacks(x, c) ==> lacks(trim(x), c),
{
    lemma_trim_start_shape(x, c);
    let y = trim_start(x);
    lemma_trim_end_shape(y);
    if trim(x).len() > 0 {
        assert(trim(x)[0] == y[0]);
    }
    if lacks(x, c) {
        assert forall|j: int| 0 <= j < trim(x).len() implies #[trigger] trim(x)[j] != c by {
            assert(trim(x)[j] == y[j]);
        }
    }
}

/// An address written as whitespace, an optional currency sign, a user, `@`, a
/// domain and whitespace parses into exactly that user and domain. A user that
/// itself starts with the currency sign needs the sign written before it.
pub proof fn lemma_parse_normalizes(
    ws1: Seq<char>,
    signed: bool,
    user: Seq<char>,
    domain: Seq<char>,
    ws2: Seq<char>,
)
    requires
        all_ws(ws1),
        all_ws(ws2),
        is_trimmed_part(user),
        is_trimmed_part(domain),
        !signed ==> !is_currency_sign(user[0]),
    ensures
        parse_spec(
            ws1 + (if signed {
                seq!['\u{20bf}']
            } else {
                Seq::<char>::empty()
            }) + user + seq!['@'] + domain + ws2,
        ) == Some((user, domain)),
{
    let p = if signed {
        seq!['\u{20bf}']
    } else {
        Seq::<char>::empty()
    };
    let core = p + user + seq!['@'] + domain;
    let s = ws1 + p + user + seq!['@'] + domain + ws2;
    assert(s =~= ws1 + (core + ws2));
    assert(core[0] == if signed { '\u{20bf}' } else { user[0] });
    assert((core + ws2)[0] == core[0]);
    lemma_trim_start_ws(ws1, core + ws2);
    assert(core.last() == domain.last());
    lemma_trim_end_ws(core, ws2);
    assert(trim(s) == core);
    let t = user + seq!['@'] + domain;
    if signed {
        assert(core.drop_first() =~= t);
    } else {
        assert(core =~= t);
    }
    assert(strip_sign(core) == t);
    lemma_count_lacks(user, '@');
    lemma_count_lacks(domain, '@');
    lemma_count_concat(user, seq!['@'], '@');
    lemma_count_concat(user + seq!['@'], domain, '@');
    lemma_count_at_sign();
    let i = user.len() as int;
    assert(t[i] == '@');
    assert forall|j: int| 0 <= j < i implies t[j] != '@' by {
        assert(t[j] == user[j]);
    }
    lemma_first_index_at(t, '@', i);
    assert(t.subrange(0, i) =~= user);
    assert(t.subrange(i + 1, t.len() as int) =~= domain);
    assert(trim_start(user) == user);
    assert(trim_end(user) == user);
    assert(trim_start(domain) == domain);
    assert(trim_end(domain) == domain);
}

/// Parsing the normalized form `user@domain` of a parsed address gives back the
/// same parts, unless the user part starts with the currency sign.
pub proof fn lemma_parse_idempotent(s: Seq<char>)
    requires
        parse_spec(s) is Some,
        !is_currency_sign(parse_spec(s)->Some_0.0[0]),
    ensures
        parse_spec(parse_spec(s)->Some_0.0 + seq!['@'] + parse_spec(s)->Some_0.1) == parse_spec(s),
{
    let (user, domain) = parse_spec(s)->Some_0;
    let t = strip_sign(trim(s));
    let i = first_index(t, '@')->Some_0;
    lemma_first_index_bounds(t, '@');
    lemma_count_lacks(t, '@');
    assert(first_index(t, '@') is Some);
    let before = t.subrange(0, i);
    assert forall|j: int| 0 <= j < before.len() implies #[trigger] before[j] != '@' by {
        assert(before[j] == t[j]);
    }
    let after = t.subrange(i + 1, t.len() as int);
    assert(lacks(before, '@'));
    assert(t =~= before + seq!['@'] + after);
    lemma_count_concat(before, seq!['@'], '@');
    lemma_count_concat(before + seq!['@'], after, '@');
    lemma_count_at_sign();
    lemma_count_lacks(before, '@');
    lemma_count_lacks(after, '@');
    lemma_trim_shape(before, '@');
    lemma_trim_shape(after, '@');
    lemma_parse_normalizes(Seq::<char>::empty(), false, user, domain, Seq::<char>::empty());
    assert(Seq::<char>::empty() + Seq::<char>::empty() + user + seq!['@'] + domain
        + Seq::<char>::empty() =~= user + seq!['@'] + domain);
}

} // verus!
