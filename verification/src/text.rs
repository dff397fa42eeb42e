//! Text as sequences of characters: the literal substitution that fills in
//! request templates, and the joining of lines for reports.

use vstd::prelude::*;
use vstd::string::*;

verus! {

/// The characters of each string of `items`, in order.
pub open spec fn texts(items: Seq<String>) -> Seq<Seq<char>> {
    Seq::new(items.len(), |i: int| items[i]@)
}

/// `token` stands in `s` at position `at`.
pub open spec fn occurs_at(s: Seq<char>, token: Seq<char>, at: int) -> bool {
    &&& 0 <= at
    &&& at + token.len() <= s.len()
    &&& s.subrange(at, at + token.len()) == token
}

/// `token` stands somewhere in `s`.
pub open spec fn occurs_in(s: Seq<char>, token: Seq<char>) -> bool {
    exists|at: int| occurs_at(s, token, at)
}

/// `s` with `value` after each of its characters.
pub open spec fn follow_each(s: Seq<char>, value: Seq<char>) -> Seq<char>
    decreases s.len(),
{
    if s.len() == 0 {
        s
    } else {
        seq![s[0]] + value + follow_each(s.skip(1), value)
    }
}

/// `s` with every occurrence of `token` replaced by `value`, reading from
/// the left and never reading a replaced character twice. An empty `token`
/// occurs before each character and at the end.
pub open spec fn replace_all(s: Seq<char>, token: Seq<char>, value: Seq<char>) -> Seq<char>
    decreases s.len(),
{
    if token.len() == 0 {
        value + follow_each(s, value)
    } else if s.len() == 0 {
        s
    } else if occurs_at(s, token, 0) {
        value + replace_all(s.skip(token.len() as int), token, value)
    } else {
        seq![s[0]] + replace_all(s.skip(1), token, value)
    }
}

/// `parts` written one after the other with `separator` between neighbours.
pub open spec fn join_with(parts: Seq<Seq<char>>, separator: Seq<char>) -> Seq<char>
    decreases parts.len(),
{
    if parts.len() == 0 {
        Seq::empty()
    } else if parts.len() == 1 {
        parts[0]
    } else {
        join_with(parts.drop_last(), separator) + separator + parts.last()
    }
}

/// A text without the token is left as it is.
pub proof fn lemma_replace_absent(s: Seq<char>, token: Seq<char>, value: Seq<char>)
    requires
        token.len() > 0,
        !occurs_in(s, token),
    ensures
        replace_all(s, token, value) == s,
    decreases s.len(),
{
    if s.len() > 0 {
        assert(!occurs_at(s, token, 0));
        let rest = s.skip(1);
        assert forall|at: int| !occurs_at(rest, token, at) by {
            if occurs_at(rest, token, at) {
                assert(s.subrange(at + 1, at + 1 + token.len()) == rest.subrange(
                    at,
                    at + token.len(),
                ));
                assert(occurs_at(s, token, at + 1));
            }
        }
        lemma_replace_absent(rest, token, value);
        assert(seq![s[0]] + rest == s);
    }
}

/// Up to the first occurrence of the token the text stays, the occurrence
/// becomes the value, and what follows it is replaced in the same way: so
/// each occurrence is replaced, however many there are.
pub proof fn lemma_replace_first(s: Seq<char>, token: Seq<char>, value: Seq<char>, at: int)
    requires
        token.len() > 0,
        occurs_at(s, token, at),
        forall|before: int| 0 <= before < at ==> !occurs_at(s, token, before),
    ensures
        replace_all(s, token, value) == s.take(at) + value + replace_all(
            s.skip(at + token.len()),
            token,
            value,
        ),
    decreases at,
{
    if at == 0 {
        assert(s.take(0) + value == value);
    } else {
        assert(!occurs_at(s, token, 0));
        let rest = s.skip(1);
        assert(rest.subrange(at - 1, at - 1 + token.len()) == s.subrange(at, at + token.len()));
        assert forall|before: int| 0 <= before < at - 1 implies !occurs_at(
            rest,
            token,
            before,
        ) by {
            if occurs_at(rest, token, before) {
                assert(s.subrange(before + 1, before + 1 + token.len()) == rest.subrange(
                    before,
                    before + token.len(),
                ));
                assert(occurs_at(s, token, before + 1));
            }
        }
        lemma_replace_first(rest, token, value, at - 1);
        assert(rest.skip(at - 1 + token.len()) == s.skip(at + token.len()));
        assert(seq![s[0]] + rest.take(at - 1) == s.take(at));
    }
}

/// The characters of `s`, for reading by position.
pub fn chars_of(s: &str) -> (chars: Vec<char>)
    ensures
        chars@ == s@,
{
    let n: usize = s.unicode_len();
    let mut chars: Vec<char> = Vec::new();
    let mut i: usize = 0;
    while i < n
        invariant
            i <= n,
            n == s@.len(),
            chars@ == s@.take(i as int),
        decreases n - i,
    {
        chars.push(s.get_char(i));
        i += 1;
        assert(chars@ == s@.take(i as int));
    }
    assert(s@.take(n as int) == s@);
    chars
}

/// Whether `token` stands in `text` at position `at`.
pub fn token_at(text: &Vec<char>, token: &Vec<char>, at: usize) -> (found: bool)
    requires
        at <= text.len(),
    ensures
        found == occurs_at(text@, token@, at as int),
{
    let m: usize = token.len();
    if m > text.len() - at {
        return false;
    }
    let mut k: usize = 0;
    while k < m
        invariant
            k <= m,
            m == token.len(),
            at + m <= text.len(),
            text@.subrange(at as int, at + k) == token@.take(k as int),
        decreases m - k,
    {
        if text[at + k] != token[k] {
            assert(text@.subrange(at as int, at + m)[k as int] != token@[k as int]);
            return false;
        }
        k += 1;
        assert(text@.subrange(at as int, at + k) == token@.take(k as int)) by {
            assert(text@.subrange(at as int, at + k) == text@.subrange(at as int, at + k - 1).push(
                text@[at + k - 1],
            ));
            assert(token@.take(k as int) == token@.take(k - 1).push(token@[k - 1]));
        }
    }
    assert(token@.take(m as int) == token@);
    true
}

/// Replaces every occurrence of `token` in `template` by `value`.
pub fn replace(template: &str, token: &str, value: &str) -> (out: String)
    ensures
        out@ == replace_all(template@, token@, value@),
{
    let text: Vec<char> = chars_of(template);
    let pattern: Vec<char> = chars_of(token);
    let n: usize = text.len();
    let m: usize = pattern.len();
    let mut out: String = String::new();
    if m == 0 {
        out.append(value);
    }
    let mut i: usize = 0;
    assert(text@.skip(0) == text@);
    while i < n
        invariant
            i <= n,
            n == text.len(),
            m == pattern.len(),
            text@ == template@,
            pattern@ == token@,
            m > 0 ==> out@ + replace_all(text@.skip(i as int), token@, value@) == replace_all(
                text@,
                token@,
                value@,
            ),
            m == 0 ==> out@ + follow_each(text@.skip(i as int), value@) == replace_all(
                text@,
                token@,
                value@,
            ),
        decreases n - i,
    {
        let ghost rest = text@.skip(i as int);
        let ghost before = out@;
        if m > 0 && token_at(&text, &pattern, i) {
            proof {
                assert(rest.subrange(0, m as int) == text@.subrange(i as int, i + m));
                assert(occurs_at(rest, token@, 0));
                assert(rest.skip(m as int) == text@.skip(i + m));
            }
            out.append(value);
            i += m;
            assert(out@ + replace_all(text@.skip(i as int), token@, value@) == before + (value@
                + replace_all(text@.skip(i as int), token@, value@)));
        } else {
            proof {
                assert(rest.skip(1) == text@.skip(i + 1));
                assert(template@.subrange(i as int, i + 1) == seq![rest[0]]);
                if m > 0 && i + m <= n {
                    assert(rest.subrange(0, m as int) == text@.subrange(i as int, i + m));
                }
                assert(m > 0 ==> !occurs_at(rest, token@, 0));
            }
            out.append(template.substring_char(i, i + 1));
            if m == 0 {
                out.append(value);
            }
            i += 1;
            proof {
                if m > 0 {
                    assert(out@ + replace_all(text@.skip(i as int), token@, value@) == before + (
                    seq![rest[0]] + replace_all(text@.skip(i as int), token@, value@)));
                } else {
                    assert(out@ + follow_each(text@.skip(i as int), value@) == before + (seq![
                        rest[0],
                    ] + value@ + follow_each(text@.skip(i as int), value@)));
                }
            }
        }
    }
    out
}

/// A copy of `items`, string by string.
pub fn copy_texts(items: &Vec<String>) -> (copy: Vec<String>)
    ensures
        texts(copy@) == texts(items@),
{
    let mut copy: Vec<String> = Vec::new();
    let n: usize = items.len();
    let mut i: usize = 0;
    while i < n
        invariant
            i <= n,
            n == items.len(),
            copy.len() == i,
            forall|k: int| 0 <= k < i ==> copy@[k]@ == items@[k]@,
        decreases n - i,
    {
        copy.push(items[i].clone());
        i += 1;
    }
    assert(texts(copy@) =~= texts(items@));
    copy
}

/// Writes `left` and then `right`.
pub fn followed_by(left: &str, right: &str) -> (out: String)
    ensures
        out@ == left@ + right@,
{
    let mut out: String = String::from_str(left);
    out.append(right);
    out
}

/// Writes the items one after the other with `separator` between neighbours.
pub fn join(items: &Vec<String>, separator: &str) -> (out: String)
    ensures
        out@ == join_with(texts(items@), separator@),
{
    let mut out: String = String::new();
    let n: usize = items.len();
    let mut i: usize = 0;
    while i < n
        invariant
            i <= n,
            n == items.len(),
            out@ == join_with(texts(items@).take(i as int), separator@),
        decreases n - i,
    {
        let ghost done = texts(items@).take(i as int);
        let ghost next = texts(items@).take(i + 1);
        proof {
            assert(next.drop_last() == done);
            assert(next.last() == items@[i as int]@);
        }
        if i > 0 {
            out.append(separator);
        } else {
            assert(out@ + items@[i as int]@ == items@[i as int]@);
        }
        out.append(items[i].as_str());
        i += 1;
    }
    assert(texts(items@).take(n as int) == texts(items@));
    out
}

} // verus!
