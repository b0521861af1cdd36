use vstd::prelude::*;

verus! {

/// A character that may appear in a hex rendering: a decimal digit or a
/// hex letter of either case.
pub open spec fn is_hex_digit(c: char) -> bool {
    (48 <= c as u32 && c as u32 <= 57)  // '0' ..= '9'
    || (97 <= c as u32 && c as u32 <= 102)  // 'a' ..= 'f'
    || (65 <= c as u32 && c as u32 <= 70)  // 'A' ..= 'F'
}

/// A well-formed hex rendering of a byte string: hex digits only, two per
/// byte, so the length is even.
pub open spec fn valid_hex_render(s: Seq<char>) -> bool {
    s.len() % 2 == 0 && (forall|i: int| 0 <= i < s.len() ==> is_hex_digit(s[i]))
}

/// The rendering with its byte order reversed: the same characters read
/// two at a time (one byte per pair), pairs in reverse order.
pub open spec fn rev_pairs(s: Seq<char>) -> Seq<char>
    decreases s.len(),
{
    if s.len() < 2 {
        s
    } else {
        rev_pairs(s.skip(2)) + s.take(2)
    }
}

/// Reversing pairs keeps the length.
proof fn lemma_rev_pairs_len(s: Seq<char>)
    ensures
        rev_pairs(s).len() == s.len(),
    decreases s.len(),
{
    if s.len() >= 2 {
        lemma_rev_pairs_len(s.skip(2));
    }
}

/// `rev_pairs` can peel the last pair instead of the first one.
proof fn lemma_rev_pairs_last(s: Seq<char>)
    requires
        2 <= s.len(),
        s.len() % 2 == 0,
    ensures
        rev_pairs(s) == s.subrange(s.len() - 2, s.len() as int) + rev_pairs(s.take(s.len() - 2)),
    decreases s.len(),
{
    if s.len() == 2 {
        assert(s.skip(2) =~= Seq::<char>::empty());
        assert(rev_pairs(s.skip(2)) =~= Seq::<char>::empty());
        assert(rev_pairs(s) == rev_pairs(s.skip(2)) + s.take(2));
        assert(rev_pairs(s) =~= s.take(2));
        assert(s.take(0) =~= Seq::<char>::empty());
        assert(s.subrange(0, 2) + rev_pairs(s.take(0)) =~= rev_pairs(s));
    } else {
        let n = s.len() as int;
        let t = s.skip(2);
        lemma_rev_pairs_last(t);
        let u = s.take(n - 2);
        assert(t.subrange(t.len() - 2, t.len() as int) =~= s.subrange(n - 2, n));
        assert(t.take(t.len() - 2) =~= u.skip(2));
        assert(u.take(2) =~= s.take(2));
        assert(rev_pairs(u) == rev_pairs(u.skip(2)) + u.take(2));
        assert(rev_pairs(s) =~= s.subrange(n - 2, n) + rev_pairs(u));
    }
}

/// Pairwise reversal distributes over concatenation, swapping the sides,
/// provided the split point lies on a pair boundary.
proof fn lemma_rev_pairs_concat(a: Seq<char>, b: Seq<char>)
    requires
        a.len() % 2 == 0,
    ensures
        rev_pairs(a + b) == rev_pairs(b) + rev_pairs(a),
    decreases a.len(),
{
    if a.len() == 0 {
        assert(a + b =~= b);
        assert(rev_pairs(b) + rev_pairs(a) =~= rev_pairs(b));
    } else {
        lemma_rev_pairs_concat(a.skip(2), b);
        assert((a + b).skip(2) =~= a.skip(2) + b);
        assert((a + b).take(2) =~= a.take(2));
        assert(rev_pairs(a + b) =~= rev_pairs(b) + rev_pairs(a));
    }
}

/// Law: flipping the byte order of a rendering twice gives back the
/// original rendering.
pub proof fn lemma_reverse_hex_round_trip(s: Seq<char>)
    requires
        s.len() % 2 == 0,
    ensures
        rev_pairs(rev_pairs(s)) == s,
    decreases s.len(),
{
    if s.len() >= 2 {
        let rest = s.skip(2);
        lemma_reverse_hex_round_trip(rest);
        lemma_rev_pairs_len(rest);
        lemma_rev_pairs_concat(rev_pairs(rest), s.take(2));
        assert(s.take(2).skip(2) =~= Seq::<char>::empty());
        assert(rev_pairs(s.take(2).skip(2)) =~= Seq::<char>::empty());
        assert(rev_pairs(s.take(2)) == rev_pairs(s.take(2).skip(2)) + s.take(2).take(2));
        assert(s.take(2).take(2) =~= s.take(2));
        assert(rev_pairs(s.take(2)) =~= s.take(2));
        assert(rev_pairs(rev_pairs(s)) =~= s);
    }
}

/// Check that `s` is a well-formed hex rendering: an even number of
/// characters, all of them hex digits.
pub fn check_hex_render(s: &str) -> (r: bool)
    ensures
        r == valid_hex_render(s@),
{
    let n = s.unicode_len();
    if n % 2 != 0 {
        return false;
    }
    let mut i: usize = 0;
    while i < n
        invariant
            n == s@.len(),
            n % 2 == 0,
            i <= n,
            forall|j: int| 0 <= j < i ==> is_hex_digit(s@[j]),
        decreases n - i,
    {
        let c = s.get_char(i);
        let v = c as u32;
        if !((48 <= v && v <= 57) || (97 <= v && v <= 102) || (65 <= v && v <= 70)) {
            assert(!is_hex_digit(s@[i as int]));
            return false;
        }
        i += 1;
    }
    true
}

/// Render the byte-order flip of a hex rendering: the pairs of `s`, last
/// pair first. This is the single place the flip occurs.
pub fn reverse_hex(s: &str) -> (r: String)
    requires
        s@.len() % 2 == 0,
    ensures
        r@ == rev_pairs(s@),
{
    let n = s.unicode_len();
    let pairs = n / 2;
    let mut out = String::new();
    let mut k: usize = 0;
    proof {
        assert(s@.take(n as int) =~= s@);
        assert(out@ + rev_pairs(s@) =~= rev_pairs(s@));
    }
    while k < pairs
        invariant
            n == s@.len(),
            n % 2 == 0,
            pairs == n / 2,
            k <= pairs,
            rev_pairs(s@) == out@ + rev_pairs(s@.take(n - 2 * k)),
        decreases pairs - k,
    {
        let from = n - 2 * k - 2;
        let pair = s.substring_char(from, from + 2);
        proof {
            let m = (n - 2 * k) as int;
            let t = s@.take(m);
            lemma_rev_pairs_last(t);
            assert(t.subrange(m - 2, m) =~= s@.subrange(m - 2, m));
            assert(t.take(m - 2) =~= s@.take(m - 2));
        }
        out.append(pair);
        proof {
            let m = (n - 2 * k) as int;
            assert(rev_pairs(s@) =~= out@ + rev_pairs(s@.take(m - 2)));
        }
        k += 1;
    }
    proof {
        assert(s@.take(n - 2 * pairs) =~= Seq::<char>::empty());
        assert(rev_pairs(s@) =~= out@);
    }
    out
}

} // verus!
