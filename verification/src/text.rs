//! Text utilities over character sequences: search, replacement, trimming
//! and decimal rendering.

use vstd::prelude::*;

verus! {

/// Appends one character to a string (`String::push`).
///
/// The contract claims what the standard library documents: the character
/// is added at the end and nothing else changes.
#[verifier::external_body]
pub fn push_char(s: &mut String, c: char)
    ensures
        final(s)@ == old(s)@.push(c),
{
    s.push(c);
}

/// The characters of `s`, in order.
pub fn chars_of(s: &str) -> (r: Vec<char>)
    ensures
        r@ == s@,
{
    let mut out: Vec<char> = Vec::new();
    for c in it: s.chars()
        invariant
            out@ == it.seq().take(it.index() as int),
    {
        out.push(c);
    }
    out
}


/// `needle` stands in `hay` starting at index `i`.
pub open spec fn occurs_at(hay: Seq<char>, needle: Seq<char>, i: int) -> bool {
    0 <= i && i + needle.len() <= hay.len() && hay.subrange(i, i + needle.len()) == needle
}

/// `needle` stands somewhere in `hay`.
pub open spec fn occurs_in(hay: Seq<char>, needle: Seq<char>) -> bool {
    exists|i: int| occurs_at(hay, needle, i)
}

/// Every non-overlapping occurrence of `from`, scanning from the left,
/// replaced by `to`.
pub open spec fn replaced(s: Seq<char>, from: Seq<char>, to: Seq<char>) -> Seq<char>
    decreases s.len(),
{
    if s.len() == 0 || from.len() == 0 {
        s
    } else if occurs_at(s, from, 0) {
        to + replaced(s.subrange(from.len() as int, s.len() as int), from, to)
    } else {
        seq![s[0]] + replaced(s.subrange(1, s.len() as int), from, to)
    }
}

proof fn lemma_occurs_shift(s: Seq<char>, f: Seq<char>, i: int)
    requires
        s.len() > 0,
        occurs_at(s.subrange(1, s.len() as int), f, i),
    ensures
        occurs_at(s, f, i + 1),
{
    assert(s.subrange(1, s.len() as int).subrange(i, i + f.len()) =~= s.subrange(
        i + 1,
        i + 1 + f.len(),
    ));
}

/// Replacing text that does not occur changes nothing.
pub proof fn law_replace_absent(s: Seq<char>, from: Seq<char>, to: Seq<char>)
    requires
        !occurs_in(s, from),
    ensures
        replaced(s, from, to) == s,
    decreases s.len(),
{
    if s.len() > 0 && from.len() > 0 {
        let rest = s.subrange(1, s.len() as int);
        assert(!occurs_at(s, from, 0));
        assert forall|i: int| !occurs_at(rest, from, i) by {
            if occurs_at(rest, from, i) {
                lemma_occurs_shift(s, from, i);
            }
        }
        law_replace_absent(rest, from, to);
        assert(seq![s[0]] + rest =~= s);
    }
}

/// A prefix without the first character of `to` only comes out of
/// replacement where it stood in the text.
proof fn lemma_replaced_prefix(s: Seq<char>, f: Seq<char>, t: Seq<char>, w: Seq<char>)
    requires
        f.len() > 0,
        t.len() > 0,
        forall|q: int| 0 <= q < w.len() ==> w[q] != t[0],
        w.len() <= replaced(s, f, t).len(),
        replaced(s, f, t).subrange(0, w.len() as int) == w,
    ensures
        w.len() <= s.len(),
        s.subrange(0, w.len() as int) == w,
    decreases s.len(),
{
    if w.len() > 0 {
        let r = replaced(s, f, t);
        if s.len() == 0 {
        } else if occurs_at(s, f, 0) {
            assert(r[0] == t[0]);
            assert(r.subrange(0, w.len() as int)[0] == w[0]);
        } else {
            let rest = s.subrange(1, s.len() as int);
            let w2 = w.subrange(1, w.len() as int);
            let r2 = replaced(rest, f, t);
            assert(r == seq![s[0]] + r2);
            assert(r.subrange(0, w.len() as int)[0] == w[0]);
            assert(r2.subrange(0, w2.len() as int) =~= w2) by {
                assert forall|q: int| 0 <= q < w2.len() implies r2.subrange(0, w2.len() as int)[q]
                    == w2[q] by {
                    assert(r.subrange(0, w.len() as int)[q + 1] == w[q + 1]);
                }
            }
            lemma_replaced_prefix(rest, f, t, w2);
            assert(s.subrange(0, w.len() as int) =~= w) by {
                assert forall|q: int| 0 <= q < w.len() implies s.subrange(0, w.len() as int)[q]
                    == w[q] by {
                    if q > 0 {
                        assert(rest.subrange(0, w2.len() as int)[q - 1] == w2[q - 1]);
                    }
                }
            }
        }
    }
}

/// `from` cannot occur starting at index `p` of `to`: they differ somewhere
/// inside `to`.
pub open spec fn mismatch_within(from: Seq<char>, to: Seq<char>, p: int) -> bool {
    exists|q: int| 0 <= q < from.len() && p + q < to.len() && #[trigger] to[p + q] != from[q]
}

/// When neither text can run into the other (no occurrence of `from` can
/// begin inside `to` after its start, the first character of `to` stands
/// nowhere after the start of `from`, and `to` does not begin with
/// `from`), no occurrence of `from` is left after replacement.
pub proof fn law_replace_leaves_none(s: Seq<char>, f: Seq<char>, t: Seq<char>)
    requires
        f.len() > 0,
        t.len() >= f.len(),
        t.subrange(0, f.len() as int) != f,
        forall|p: int| 1 <= p < t.len() ==> #[trigger] mismatch_within(f, t, p),
        forall|q: int| 1 <= q < f.len() ==> f[q] != t[0],
    ensures
        !occurs_in(replaced(s, f, t), f),
    decreases s.len(),
{
    let r = replaced(s, f, t);
    if s.len() > 0 {
        assert forall|p: int| !occurs_at(r, f, p) by {
            if occurs_at(r, f, p) {
                assert(r.subrange(p, p + f.len())[0] == f[0]);
                if occurs_at(s, f, 0) {
                    let rest = s.subrange(f.len() as int, s.len() as int);
                    let r2 = replaced(rest, f, t);
                    assert(r == t + r2);
                    if p == 0 {
                        assert(r.subrange(0, f.len() as int) =~= t.subrange(0, f.len() as int));
                    } else if p < t.len() {
                        assert(mismatch_within(f, t, p));
                        let q = choose|q: int|
                            0 <= q < f.len() && p + q < t.len() && #[trigger] t[p + q] != f[q];
                        assert(r[p + q] == t[p + q]);
                        assert(r.subrange(p, p + f.len())[q] == f[q]);
                    } else {
                        law_replace_leaves_none(rest, f, t);
                        assert(r2.subrange(p - t.len(), p - t.len() + f.len()) =~= r.subrange(
                            p,
                            p + f.len(),
                        ));
                        assert(occurs_at(r2, f, p - t.len()));
                    }
                } else {
                    let rest = s.subrange(1, s.len() as int);
                    let r2 = replaced(rest, f, t);
                    assert(r == seq![s[0]] + r2);
                    if p == 0 {
                        let w = f.subrange(1, f.len() as int);
                        assert(r2.subrange(0, w.len() as int) =~= w) by {
                            assert forall|q: int| 0 <= q < w.len() implies r2.subrange(
                                0,
                                w.len() as int,
                            )[q] == w[q] by {
                                assert(r.subrange(0, f.len() as int)[q + 1] == f[q + 1]);
                            }
                        }
                        lemma_replaced_prefix(rest, f, t, w);
                        assert(s.subrange(0, f.len() as int) =~= f) by {
                            assert forall|q: int| 0 <= q < f.len() implies s.subrange(
                                0,
                                f.len() as int,
                            )[q] == f[q] by {
                                if q == 0 {
                                    assert(r[0] == s[0]);
                                    assert(r.subrange(0, f.len() as int)[0] == f[0]);
                                } else {
                                    assert(rest.subrange(0, w.len() as int)[q - 1] == w[q - 1]);
                                }
                            }
                        }
                        assert(occurs_at(s, f, 0));
                    } else {
                        law_replace_leaves_none(rest, f, t);
                        assert(r2.subrange(p - 1, p - 1 + f.len()) =~= r.subrange(p, p + f.len()));
                        assert(occurs_at(r2, f, p - 1));
                    }
                }
            }
        }
    }
}

/// The characters of `v` gathered into a string.
pub fn string_from_chars(v: &Vec<char>) -> (r: String)
    ensures
        r@ == v@,
{
    let mut out = String::new();
    let mut i: usize = 0;
    while i < v.len()
        invariant
            i <= v@.len(),
            out@ == v@.take(i as int),
        decreases v@.len() - i,
    {
        push_char(&mut out, v[i]);
        i += 1;
        assert(out@ =~= v@.take(i as int));
    }
    assert(v@.take(v@.len() as int) =~= v@);
    out
}

/// Whether `needle` stands in `hay` at index `i`.
pub fn occurs_at_exec(hay: &Vec<char>, needle: &Vec<char>, i: usize) -> (r: bool)
    ensures
        r == occurs_at(hay@, needle@, i as int),
{
    if i > hay.len() || needle.len() > hay.len() - i {
        return false;
    }
    let mut k: usize = 0;
    while k < needle.len()
        invariant
            i + needle@.len() <= hay.len(),
            k <= needle@.len(),
            forall|j: int| 0 <= j < k ==> hay@[i + j] == needle@[j],
        decreases needle@.len() - k,
    {
        if hay[i + k] != needle[k] {
            assert(hay@.subrange(i as int, i + needle@.len())[k as int] != needle@[k as int]);
            return false;
        }
        k += 1;
    }
    assert(hay@.subrange(i as int, i + needle@.len()) =~= needle@);
    true
}

/// Whether `needle` stands anywhere in `hay` (`str::contains`).
pub fn contains(hay: &str, needle: &str) -> (r: bool)
    ensures
        r == occurs_in(hay@, needle@),
{
    let h = chars_of(hay);
    let n = chars_of(needle);
    if n.len() > h.len() {
        assert forall|i: int| !occurs_at(hay@, needle@, i) by {}
        return false;
    }
    let limit = h.len() - n.len();
    let mut i: usize = 0;
    loop
        invariant
            h@ == hay@,
            n@ == needle@,
            limit == h@.len() - n@.len(),
            i <= limit,
            forall|j: int| 0 <= j < i ==> !occurs_at(hay@, needle@, j),
        decreases limit - i,
    {
        if occurs_at_exec(&h, &n, i) {
            return true;
        }
        if i == limit {
            assert forall|j: int| !occurs_at(hay@, needle@, j) by {
                if 0 <= j <= i {
                }
            }
            return false;
        }
        i += 1;
    }
}

/// `s` with every non-overlapping occurrence of `from`, scanning from the
/// left, replaced by `to` (`str::replace` with a non-empty pattern).
pub fn replace_all(s: &str, from: &str, to: &str) -> (r: String)
    requires
        from@.len() > 0,
    ensures
        r@ == replaced(s@, from@, to@),
{
    let sv = chars_of(s);
    let fv = chars_of(from);
    let mut out = String::new();
    let mut i: usize = 0;
    assert(sv@.subrange(0, sv@.len() as int) =~= sv@);
    assert(out@ + replaced(sv@, from@, to@) =~= replaced(sv@, from@, to@));
    while i < sv.len()
        invariant
            sv@ == s@,
            fv@ == from@,
            fv@.len() > 0,
            i <= sv@.len(),
            replaced(s@, from@, to@) == out@ + replaced(
                sv@.subrange(i as int, sv@.len() as int),
                from@,
                to@,
            ),
        decreases sv@.len() - i,
    {
        let ghost rest = sv@.subrange(i as int, sv@.len() as int);
        let hit = occurs_at_exec(&sv, &fv, i);
        if hit {
            assert(rest.subrange(0, fv@.len() as int) =~= sv@.subrange(
                i as int,
                i + fv@.len(),
            ));
            assert(rest.subrange(fv@.len() as int, rest.len() as int) =~= sv@.subrange(
                i + fv@.len(),
                sv@.len() as int,
            ));
            let ghost before = out@;
            out.append(to);
            i += fv.len();
            let ghost tail = replaced(sv@.subrange(i as int, sv@.len() as int), from@, to@);
            assert(before + (to@ + tail) =~= out@ + tail);
        } else {
            assert(!occurs_at(rest, from@, 0)) by {
                if occurs_at(rest, from@, 0) {
                    assert(rest.subrange(0, fv@.len() as int) =~= sv@.subrange(
                        i as int,
                        i + fv@.len(),
                    ));
                }
            }
            assert(rest.subrange(1, rest.len() as int) =~= sv@.subrange(
                i + 1,
                sv@.len() as int,
            ));
            let ghost before = out@;
            push_char(&mut out, sv[i]);
            i += 1;
            let ghost tail = replaced(sv@.subrange(i as int, sv@.len() as int), from@, to@);
            assert(before + (seq![rest[0]] + tail) =~= out@ + tail);
        }
    }
    assert(sv@.subrange(i as int, sv@.len() as int) =~= Seq::<char>::empty());
    assert(out@ + Seq::<char>::empty() =~= out@);
    out
}


/// The characters Unicode gives the White_Space property, which is what
/// `char::is_whitespace` answers.
pub open spec fn is_space(c: char) -> bool {
    let x = c as u32;
    ||| 0x09 <= x <= 0x0d
    ||| x == 0x20
    ||| x == 0x85
    ||| x == 0xa0
    ||| x == 0x1680
    ||| 0x2000 <= x <= 0x200a
    ||| x == 0x2028
    ||| x == 0x2029
    ||| x == 0x202f
    ||| x == 0x205f
    ||| x == 0x3000
}

/// Index of the first non-space character at or after `i`, or the length.
pub open spec fn first_solid(s: Seq<char>, i: int) -> int
    decreases s.len() - i,
{
    if i < 0 || i >= s.len() {
        s.len() as int
    } else if is_space(s[i]) {
        first_solid(s, i + 1)
    } else {
        i
    }
}

/// One past the index of the last non-space character before `j`, or 0.
pub open spec fn last_solid_end(s: Seq<char>, j: int) -> int
    decreases j,
{
    if j <= 0 || j > s.len() {
        0
    } else if is_space(s[j - 1]) {
        last_solid_end(s, j - 1)
    } else {
        j
    }
}

/// `s` without its leading and trailing white space (`str::trim`).
pub open spec fn trimmed(s: Seq<char>) -> Seq<char> {
    let a = first_solid(s, 0);
    let b = last_solid_end(s, s.len() as int);
    if a < b {
        s.subrange(a, b)
    } else {
        Seq::empty()
    }
}

/// Whether `c` is white space in the sense of [`is_space`].
pub fn is_space_exec(c: char) -> (r: bool)
    ensures
        r == is_space(c),
{
    let x = c as u32;
    (0x09 <= x && x <= 0x0d) || x == 0x20 || x == 0x85 || x == 0xa0 || x == 0x1680 || (0x2000
        <= x && x <= 0x200a) || x == 0x2028 || x == 0x2029 || x == 0x202f || x == 0x205f || x
        == 0x3000
}

/// `s` without its leading and trailing white space (`str::trim`).
pub fn trim(s: &str) -> (r: String)
    ensures
        r@ == trimmed(s@),
{
    let v = chars_of(s);
    let mut a: usize = 0;
    while a < v.len() && is_space_exec(v[a])
        invariant
            v@ == s@,
            a <= v@.len(),
            first_solid(s@, 0) == first_solid(s@, a as int),
        decreases v@.len() - a,
    {
        a += 1;
    }
    let mut b: usize = v.len();
    while b > 0 && is_space_exec(v[b - 1])
        invariant
            v@ == s@,
            b <= v@.len(),
            last_solid_end(s@, s@.len() as int) == last_solid_end(s@, b as int),
        decreases b,
    {
        b -= 1;
    }
    let mut out = String::new();
    if a < b {
        let mut k = a;
        while k < b
            invariant
                v@ == s@,
                a <= k <= b <= v@.len(),
                out@ == v@.subrange(a as int, k as int),
            decreases b - k,
        {
            push_char(&mut out, v[k]);
            k += 1;
            assert(out@ =~= v@.subrange(a as int, k as int));
        }
    }
    out
}

/// The decimal digit of `d`, for `d` below ten.
pub open spec fn digit_char(d: nat) -> char {
    if d == 0 {
        '0'
    } else if d == 1 {
        '1'
    } else if d == 2 {
        '2'
    } else if d == 3 {
        '3'
    } else if d == 4 {
        '4'
    } else if d == 5 {
        '5'
    } else if d == 6 {
        '6'
    } else if d == 7 {
        '7'
    } else if d == 8 {
        '8'
    } else {
        '9'
    }
}

/// The decimal rendering of `n`, without leading zeros.
pub open spec fn decimal(n: nat) -> Seq<char>
    decreases n,
{
    if n < 10 {
        seq![digit_char(n)]
    } else {
        decimal(n / 10).push(digit_char(n % 10))
    }
}

proof fn lemma_decimal_nonempty(n: nat)
    ensures
        decimal(n).len() >= 1,
        n >= 10 ==> decimal(n).len() >= 2,
    decreases n,
{
    if n >= 10 {
        lemma_decimal_nonempty(n / 10);
    }
}

/// Different numbers are rendered differently.
pub proof fn law_decimal_injective(n: nat, m: nat)
    requires
        decimal(n) == decimal(m),
    ensures
        n == m,
    decreases n,
{
    lemma_decimal_nonempty(n);
    lemma_decimal_nonempty(m);
    if n >= 10 && m >= 10 {
        assert(decimal(n).drop_last() =~= decimal(n / 10));
        assert(decimal(m).drop_last() =~= decimal(m / 10));
        law_decimal_injective(n / 10, m / 10);
        assert(decimal(n).last() == digit_char(n % 10));
        assert(decimal(m).last() == digit_char(m % 10));
    } else if n < 10 && m < 10 {
        assert(decimal(n)[0] == digit_char(n));
        assert(decimal(m)[0] == digit_char(m));
    } else {
        assert(decimal(n).len() != decimal(m).len());
    }
}

fn digit_exec(d: usize) -> (c: char)
    requires
        d < 10,
    ensures
        c == digit_char(d as nat),
{
    if d == 0 {
        '0'
    } else if d == 1 {
        '1'
    } else if d == 2 {
        '2'
    } else if d == 3 {
        '3'
    } else if d == 4 {
        '4'
    } else if d == 5 {
        '5'
    } else if d == 6 {
        '6'
    } else if d == 7 {
        '7'
    } else if d == 8 {
        '8'
    } else {
        '9'
    }
}

/// Appends the decimal rendering of `n` to `out`.
pub fn push_decimal(out: &mut String, n: usize)
    ensures
        final(out)@ == old(out)@ + decimal(n as nat),
    decreases n,
{
    if n >= 10 {
        push_decimal(out, n / 10);
    }
    push_char(out, digit_exec(n % 10));
    assert(final(out)@ =~= old(out)@ + decimal(n as nat));
}

/// `prefix` followed by the decimal rendering of `n` (`format!("{prefix}{n}")`).
pub fn with_number(prefix: &str, n: usize) -> (r: String)
    ensures
        r@ == prefix@ + decimal(n as nat),
{
    let mut out = String::from_str(prefix);
    push_decimal(&mut out, n);
    out
}

/// The concatenation of `a` and `b`.
pub fn concat_str(a: &str, b: &str) -> (r: String)
    ensures
        r@ == a@ + b@,
{
    let mut out = String::from_str(a);
    out.append(b);
    out
}

} // verus!
