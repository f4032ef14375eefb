//! String helpers shared by the subject, path and address code: splitting at
//! a separator, comparing, and rendering numbers in decimal.
use vstd::prelude::*;

verus! {

/// Appends one character to a string (`String::push`).
///
/// Trusted: the standard library documents that `push` appends the given
/// character to the end of the string.
#[verifier::external_body]
pub(crate) fn push_char(s: &mut String, c: char)
    ensures
        final(s)@ == old(s)@.push(c),
{
    s.push(c);
}

/// The fields of `s` between occurrences of `sep`, as `str::split` yields
/// them: there is always at least one field, and two adjacent separators
/// enclose an empty one.
pub open spec fn split_on(s: Seq<char>, sep: char) -> Seq<Seq<char>>
    decreases s.len(),
{
    if s.len() == 0 {
        seq![Seq::<char>::empty()]
    } else {
        let fields = split_on(s.drop_last(), sep);
        if s.last() == sep {
            fields.push(Seq::<char>::empty())
        } else {
            fields.update(fields.len() - 1, fields.last().push(s.last()))
        }
    }
}

/// `split_on` always yields at least one field.
pub proof fn lemma_split_on_nonempty(s: Seq<char>, sep: char)
    ensures
        split_on(s, sep).len() >= 1,
    decreases s.len(),
{
    if s.len() > 0 {
        lemma_split_on_nonempty(s.drop_last(), sep);
    }
}

/// A sequence without the separator is a single field.
pub proof fn lemma_split_on_no_sep(a: Seq<char>, sep: char)
    requires
        !a.contains(sep),
    ensures
        split_on(a, sep) =~= seq![a],
    decreases a.len(),
{
    if a.len() > 0 {
        let a0 = a.drop_last();
        assert(!a0.contains(sep)) by {
            if a0.contains(sep) {
                let i = choose|i: int| 0 <= i < a0.len() && a0[i] == sep;
                assert(a[i] == sep);
            }
        }
        lemma_split_on_no_sep(a0, sep);
        assert(a.last() != sep) by {
            assert(a[a.len() - 1] == a.last());
        }
        assert(a0.push(a.last()) =~= a);
        assert(split_on(a, sep) == seq![a0].update(0, a0.push(a.last())));
        assert(seq![a0].update(0, a) =~= seq![a]);
    } else {
        assert(a =~= Seq::<char>::empty());
    }
}

/// Splitting `a + [sep] + b`, where `a` holds no separator, gives `a` as the
/// first field, followed by the fields of `b`.
pub proof fn lemma_split_on_field_then_rest(a: Seq<char>, b: Seq<char>, sep: char)
    requires
        !a.contains(sep),
    ensures
        split_on(a + seq![sep] + b, sep) =~= seq![a] + split_on(b, sep),
    decreases b.len(),
{
    let head = a + seq![sep];
    if b.len() == 0 {
        assert(head + b =~= head);
        assert(head.drop_last() =~= a);
        lemma_split_on_no_sep(a, sep);
        assert(head.last() == sep);
    } else {
        let b0 = b.drop_last();
        lemma_split_on_field_then_rest(a, b0, sep);
        assert((head + b).drop_last() =~= head + b0);
        assert((head + b).last() == b.last());
        lemma_split_on_nonempty(b0, sep);
    }
}

/// Field `n` of `s` split at `sep`, if there are more than `n` fields.
pub fn nth_field(s: &str, sep: char, n: usize) -> (r: Option<String>)
    ensures
        match r {
            Some(f) => n < split_on(s@, sep).len() && f@ == split_on(s@, sep)[n as int],
            None => n >= split_on(s@, sep).len(),
        },
{
    let mut count: usize = 0;
    let mut done = false;
    let mut current = String::new();
    let mut found = String::new();
    for c in it: s.chars()
        invariant
            it.seq() == s@,
            !done ==> count as int + 1 == split_on(it.seq().take(it.index() as int), sep).len(),
            !done ==> count <= n,
            !done && count == n ==> current@ == split_on(
                it.seq().take(it.index() as int),
                sep,
            )[n as int],
            done ==> n + 1 < split_on(it.seq().take(it.index() as int), sep).len(),
            done ==> found@ == split_on(it.seq().take(it.index() as int), sep)[n as int],
    {
        let ghost prefix = it.seq().take(it.index() as int);
        let ghost next = it.seq().take(it.index() + 1);
        proof {
            assert(next.drop_last() =~= prefix);
            assert(next.last() == c);
            lemma_split_on_nonempty(prefix, sep);
            let f = split_on(prefix, sep);
            assert(split_on(next, sep) == if c == sep {
                f.push(Seq::<char>::empty())
            } else {
                f.update(f.len() - 1, f.last().push(c))
            });
        }
        if !done {
            if c == sep {
                if count == n {
                    found = current;
                    current = String::new();
                    done = true;
                } else {
                    count = count + 1;
                    current = String::new();
                }
            } else if count == n {
                push_char(&mut current, c);
            }
        }
    }
    proof {
        assert(s@.take(s@.len() as int) =~= s@);
    }
    if done {
        Some(found)
    } else if count == n {
        Some(current)
    } else {
        None
    }
}

/// Whether two string slices hold the same characters.
pub fn same_text(a: &str, b: &str) -> (r: bool)
    ensures
        r == (a@ == b@),
{
    a.to_owned() == b.to_owned()
}

/// The decimal digit character for `d` in `0..10`.
pub open spec fn digit_char(d: int) -> char {
    if d == 0 {
        '0'
    } else if d == 1 {
        '1'
    } else if d == 2 {
        '2'
    } else if d == 3 {
        '3'
    } else if d == 4 {
        '4'
    } else if d == 5 {
        '5'
    } else if d == 6 {
        '6'
    } else if d == 7 {
        '7'
    } else if d == 8 {
        '8'
    } else {
        '9'
    }
}

/// The decimal representation of `n`, without leading zeros.
pub open spec fn decimal(n: nat) -> Seq<char>
    decreases n,
{
    if n < 10 {
        seq![digit_char(n as int)]
    } else {
        decimal(n / 10).push(digit_char((n % 10) as int))
    }
}

fn digit(d: u32) -> (c: char)
    requires
        d < 10,
    ensures
        c == digit_char(d as int),
{
    if d == 0 {
        '0'
    } else if d == 1 {
        '1'
    } else if d == 2 {
        '2'
    } else if d == 3 {
        '3'
    } else if d == 4 {
        '4'
    } else if d == 5 {
        '5'
    } else if d == 6 {
        '6'
    } else if d == 7 {
        '7'
    } else if d == 8 {
        '8'
    } else {
        '9'
    }
}

/// Appends the decimal representation of `n` to `s`.
pub fn push_decimal(s: &mut String, n: u32)
    ensures
        final(s)@ == old(s)@ + decimal(n as nat),
    decreases n,
{
    if n >= 10 {
        push_decimal(s, n / 10);
    }
    push_char(s, digit(n % 10));
    proof {
        if n >= 10 {
            assert(old(s)@ + decimal((n / 10) as nat) + seq![digit_char((n % 10) as int)] =~= old(
                s,
            )@ + decimal(n as nat));
        } else {
            assert(old(s)@.push(digit_char((n % 10) as int)) =~= old(s)@ + decimal(n as nat));
        }
    }
}

/// Appends the characters of `t` to `s`.
pub fn push_text(s: &mut String, t: &str)
    ensures
        final(s)@ == old(s)@ + t@,
{
    s.append(t);
}

} // verus!

verus! {

/// Whether `needle` occurs in `hay` starting at position `i`.
pub open spec fn occurs_at(hay: Seq<char>, needle: Seq<char>, i: int) -> bool {
    0 <= i && i + needle.len() <= hay.len() && hay.subrange(i, i + needle.len()) == needle
}

/// Whether `needle` occurs anywhere in `hay`.
pub open spec fn occurs_in(hay: Seq<char>, needle: Seq<char>) -> bool {
    exists|i: int| #[trigger] occurs_at(hay, needle, i)
}

fn chars_of(s: &str) -> (r: Vec<char>)
    ensures
        r@ == s@,
{
    let mut r: Vec<char> = Vec::new();
    for c in it: s.chars()
        invariant
            r@ == it.seq().take(it.index() as int),
    {
        r.push(c);
    }
    r
}

/// Whether `needle` occurs in `hay`, as `str::contains` with a string
/// pattern.
pub fn contains_text(hay: &str, needle: &str) -> (r: bool)
    ensures
        r == occurs_in(hay@, needle@),
{
    let h = chars_of(hay);
    let n = chars_of(needle);
    if n.len() > h.len() {
        proof {
            assert forall|i: int| !occurs_at(hay@, needle@, i) by {}
        }
        return false;
    }
    if n.len() == 0 {
        proof {
            assert(hay@.subrange(0, 0) =~= needle@);
            assert(occurs_at(hay@, needle@, 0));
        }
        return true;
    }
    let hl = h.len();
    let last = h.len() - n.len();
    let mut i: usize = 0;
    while i <= last
        invariant
            h@ == hay@,
            n@ == needle@,
            0 < n@.len() <= h@.len(),
            last == h@.len() - n@.len(),
            i <= last + 1,
            hl == h@.len(),
            forall|k: int| 0 <= k < i ==> !#[trigger] occurs_at(hay@, needle@, k),
        decreases last + 1 - i,
    {
        let mut j: usize = 0;
        let mut matched = true;
        while j < n.len()
            invariant
                h@ == hay@,
                n@ == needle@,
                0 < n@.len() <= h@.len(),
                i <= last,
                last == h@.len() - n@.len(),
                j <= n@.len(),
                hl == h@.len(),
                matched == (forall|k: int| 0 <= k < j ==> h@[i + k] == n@[k]),
            decreases n@.len() - j,
        {
            if h[i + j] != n[j] {
                matched = false;
            }
            j = j + 1;
        }
        if matched {
            proof {
                assert(hay@.subrange(i as int, i + needle@.len()) =~= needle@);
                assert(occurs_at(hay@, needle@, i as int));
            }
            return true;
        }
        proof {
            let k0 = choose|k: int| 0 <= k < n@.len() && h@[i + k] != n@[k];
            if occurs_at(hay@, needle@, i as int) {
                assert(hay@.subrange(i as int, i + needle@.len())[k0] == needle@[k0]);
            }
        }
        i = i + 1;
    }
    proof {
        assert forall|k: int| !#[trigger] occurs_at(hay@, needle@, k) by {
            if 0 <= k <= last {
                assert(k < i);
            }
        }
    }
    false
}

} // verus!
