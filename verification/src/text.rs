//! Verified text utilities: prefix and substring tests, truncation by
//! character count, and equality of string slices. These are the primitives
//! behind URL classification and keyword filtering.

use vstd::prelude::*;

verus! {

use crate::outside::{push_char, trim_str, trimmed_of};

/// The characters of `needle` occur in `hay` starting at position `i`.
pub open spec fn matches_at(hay: Seq<char>, needle: Seq<char>, i: int) -> bool {
    &&& 0 <= i
    &&& i + needle.len() <= hay.len()
    &&& hay.subrange(i, i + needle.len()) == needle
}

/// `needle` occurs somewhere in `hay` (case-sensitive, by characters).
pub open spec fn contains_seq(hay: Seq<char>, needle: Seq<char>) -> bool {
    exists|i: int| matches_at(hay, needle, i)
}

/// Compares the characters of `a` and `b` one by one.
pub fn str_eq(a: &str, b: &str) -> (r: bool)
    ensures
        r == (a@ == b@),
{
    let alen = a.unicode_len();
    let blen = b.unicode_len();
    if alen != blen {
        assert(a@ != b@);
        return false;
    }
    let mut i: usize = 0;
    while i < alen
        invariant
            alen == a@.len(),
            alen == b@.len(),
            i <= alen,
            forall|k: int| 0 <= k < i ==> a@[k] == b@[k],
        decreases alen - i,
    {
        if a.get_char(i) != b.get_char(i) {
            assert(a@ != b@);
            return false;
        }
        i = i + 1;
    }
    assert(a@ =~= b@);
    true
}

/// `needle` occurs in `hay` starting exactly at position `at`.
fn matches_here(hay: &str, needle: &str, at: usize) -> (r: bool)
    requires
        at + needle@.len() <= hay@.len(),
    ensures
        r == matches_at(hay@, needle@, at as int),
{
    let hlen = hay.unicode_len();
    let nlen = needle.unicode_len();
    let mut i: usize = 0;
    while i < nlen
        invariant
            hlen == hay@.len(),
            nlen == needle@.len(),
            at + nlen <= hlen,
            i <= nlen,
            forall|k: int| 0 <= k < i ==> hay@[at + k] == needle@[k],
        decreases nlen - i,
    {
        if hay.get_char(at + i) != needle.get_char(i) {
            assert(hay@.subrange(at as int, at + nlen) != needle@) by {
                assert(hay@.subrange(at as int, at + nlen)[i as int] == hay@[at + i]);
            }
            return false;
        }
        i = i + 1;
    }
    assert(hay@.subrange(at as int, at + nlen) =~= needle@);
    true
}

/// The characters of `prefix` open `s`.
pub fn starts_with_str(s: &str, prefix: &str) -> (r: bool)
    ensures
        r == prefix@.is_prefix_of(s@),
{
    let plen = prefix.unicode_len();
    if plen > s.unicode_len() {
        return false;
    }
    let r = matches_here(s, prefix, 0);
    assert(s@.subrange(0, plen as int) == s@.take(plen as int));
    r
}

/// The characters of `suffix` close `s`.
pub fn ends_with_str(s: &str, suffix: &str) -> (r: bool)
    ensures
        r == suffix@.is_suffix_of(s@),
{
    let slen = s.unicode_len();
    let xlen = suffix.unicode_len();
    if xlen > slen {
        return false;
    }
    let r = matches_here(s, suffix, slen - xlen);
    assert(s@.subrange(slen - xlen, slen as int) == s@.skip(slen - xlen));
    r
}

/// Case-sensitive substring search, as the keyword gate of the smart filter
/// uses it.
pub fn contains_str(hay: &str, needle: &str) -> (r: bool)
    ensures
        r == contains_seq(hay@, needle@),
{
    let hlen = hay.unicode_len();
    let nlen = needle.unicode_len();
    if nlen > hlen {
        assert(!contains_seq(hay@, needle@));
        return false;
    }
    if nlen == 0 {
        assert(hay@.subrange(0, 0) =~= needle@);
        assert(matches_at(hay@, needle@, 0));
        return true;
    }
    let mut i: usize = 0;
    while i <= hlen - nlen
        invariant
            hlen == hay@.len(),
            nlen == needle@.len(),
            0 < nlen <= hlen,
            i <= hlen - nlen + 1,
            forall|j: int| 0 <= j < i ==> !matches_at(hay@, needle@, j),
        decreases hlen - i,
    {
        if matches_here(hay, needle, i) {
            return true;
        }
        i = i + 1;
    }
    assert(!contains_seq(hay@, needle@));
    false
}

/// The first `max` characters of `s`, or all of `s` if it is shorter.
pub open spec fn truncate_spec(s: Seq<char>, max: int) -> Seq<char> {
    if s.len() <= max {
        s
    } else {
        s.take(max)
    }
}

/// Truncation by Unicode scalar count, without an ellipsis.
pub fn truncate_chars(s: &str, max: usize) -> (r: String)
    ensures
        r@ == truncate_spec(s@, max as int),
{
    let len = s.unicode_len();
    if len <= max {
        s.to_owned()
    } else {
        let cut = s.substring_char(0, max);
        assert(cut@ =~= s@.take(max as int));
        cut.to_owned()
    }
}

/// The position of the first occurrence of `pat` in `s`.
pub open spec fn first_match(s: Seq<char>, pat: Seq<char>) -> Option<int>
    decreases s.len(),
{
    if pat.is_prefix_of(s) {
        Some(0int)
    } else if s.len() == 0 {
        None
    } else {
        match first_match(s.drop_first(), pat) {
            None => None,
            Some(j) => Some(j + 1),
        }
    }
}

/// `first_match` finds exactly the first occurrence: a `Some` points at a
/// match with nothing before it, a `None` means no occurrence at all.
pub proof fn lemma_first_match(s: Seq<char>, pat: Seq<char>)
    ensures
        match first_match(s, pat) {
            None => forall|j: int| !matches_at(s, pat, j),
            Some(j) => matches_at(s, pat, j) && (forall|k: int| 0 <= k < j ==> !matches_at(s, pat, k)),
        },
    decreases s.len(),
{
    if pat.is_prefix_of(s) {
        assert(matches_at(s, pat, 0));
    } else if s.len() == 0 {
        assert(forall|j: int| !matches_at(s, pat, j));
    } else {
        lemma_first_match(s.drop_first(), pat);
        assert(!matches_at(s, pat, 0)) by {
            if matches_at(s, pat, 0) {
                assert(pat =~= s.subrange(0, pat.len() as int));
            }
        }
        match first_match(s.drop_first(), pat) {
            None => {
                assert forall|j: int| !matches_at(s, pat, j) by {
                    if 1 <= j && j + pat.len() <= s.len() {
                        assert(!matches_at(s.drop_first(), pat, j - 1));
                        if matches_at(s, pat, j) {
                            assert(s.drop_first().subrange(j - 1, j - 1 + pat.len()) =~= s.subrange(
                                j,
                                j + pat.len(),
                            ));
                        }
                    }
                }
            },
            Some(j) => {
                assert(matches_at(s.drop_first(), pat, j));
                assert(s.subrange(j + 1, j + 1 + pat.len()) =~= s.drop_first().subrange(
                    j,
                    j + pat.len(),
                ));
                assert(matches_at(s, pat, j + 1));
                assert forall|k: int| 0 <= k < j + 1 implies !matches_at(s, pat, k) by {
                    if 1 <= k {
                        assert(!matches_at(s.drop_first(), pat, k - 1));
                        if matches_at(s, pat, k) {
                            assert(s.drop_first().subrange(k - 1, k - 1 + pat.len()) =~= s.subrange(
                                k,
                                k + pat.len(),
                            ));
                        }
                    }
                }
            },
        }
    }
}

/// The position of the first occurrence of `pat` in `s`, if there is one.
pub fn find_str(s: &str, pat: &str) -> (r: Option<usize>)
    ensures
        match r {
            None => first_match(s@, pat@) is None,
            Some(j) => first_match(s@, pat@) == Some(j as int),
        },
{
    let slen = s.unicode_len();
    let plen = pat.unicode_len();
    proof {
        lemma_first_match(s@, pat@);
    }
    if plen > slen {
        return None;
    }
    if plen == 0 {
        proof {
            assert(pat@ =~= s@.take(0));
        }
        return Some(0);
    }
    let mut i: usize = 0;
    while i <= slen - plen
        invariant
            slen == s@.len(),
            plen == pat@.len(),
            0 < plen <= slen,
            i <= slen - plen + 1,
            forall|k: int| 0 <= k < i ==> !matches_at(s@, pat@, k),
        decreases slen - i,
    {
        if matches_here(s, pat, i) {
            proof {
                lemma_first_match(s@, pat@);
            }
            return Some(i);
        }
        i = i + 1;
    }
    proof {
        lemma_first_match(s@, pat@);
    }
    None
}

/// `s` with the first occurrence of `pat` (if any) replaced by `rep`.
pub open spec fn replace_first_spec(s: Seq<char>, pat: Seq<char>, rep: Seq<char>) -> Seq<char> {
    match first_match(s, pat) {
        None => s,
        Some(j) => s.take(j) + rep + s.skip(j + pat.len()),
    }
}

/// Replaces the first occurrence of `pat` in `s` by `rep`; without an
/// occurrence, `s` is returned unchanged.
pub fn replace_first(s: &str, pat: &str, rep: &str) -> (r: String)
    ensures
        r@ == replace_first_spec(s@, pat@, rep@),
{
    match find_str(s, pat) {
        None => s.to_owned(),
        Some(j) => {
            proof {
                lemma_first_match(s@, pat@);
            }
            let slen = s.unicode_len();
            let plen = pat.unicode_len();
            let mut r = s.substring_char(0, j).to_owned();
            proof {
                assert(r@ =~= s@.take(j as int));
            }
            r.append(rep);
            let tail = s.substring_char(j + plen, slen);
            proof {
                assert(tail@ =~= s@.skip(j + plen));
            }
            r.append(tail);
            r
        },
    }
}

/// The decimal digit character for `d`.
pub open spec fn dec_digit(d: int) -> char
    recommends
        0 <= d <= 9,
{
    if d == 0 {
        '0'
    } else if d == 1 {
        '1'
    } else if d == 2 {
        '2'
    } else if d == 3 {
        '3'
    } else if d == 4 {
        '4'
    } else if d == 5 {
        '5'
    } else if d == 6 {
        '6'
    } else if d == 7 {
        '7'
    } else if d == 8 {
        '8'
    } else {
        '9'
    }
}

/// The decimal digits of `n`, most significant first, without a sign and
/// without leading zeros (a lone zero for 0).
pub open spec fn dec_nat(n: nat) -> Seq<char>
    decreases n,
{
    if n < 10 {
        seq![dec_digit(n as int)]
    } else {
        dec_nat(n / 10) + seq![dec_digit((n % 10) as int)]
    }
}

/// The decimal form of `n`: a minus sign before the digits when `n` is
/// negative.
pub open spec fn dec_int(n: int) -> Seq<char> {
    if n < 0 {
        seq!['-'] + dec_nat((-n) as nat)
    } else {
        dec_nat(n as nat)
    }
}

/// The one-character string for the decimal digit `d`.
fn digit_str(d: u64) -> (r: &'static str)
    requires
        d <= 9,
    ensures
        r@ == seq![dec_digit(d as int)],
{
    proof {
        reveal_strlit("0");
        reveal_strlit("1");
        reveal_strlit("2");
        reveal_strlit("3");
        reveal_strlit("4");
        reveal_strlit("5");
        reveal_strlit("6");
        reveal_strlit("7");
        reveal_strlit("8");
        reveal_strlit("9");
    }
    let r = if d == 0 {
        "0"
    } else if d == 1 {
        "1"
    } else if d == 2 {
        "2"
    } else if d == 3 {
        "3"
    } else if d == 4 {
        "4"
    } else if d == 5 {
        "5"
    } else if d == 6 {
        "6"
    } else if d == 7 {
        "7"
    } else if d == 8 {
        "8"
    } else {
        "9"
    };
    proof {
        assert(r@ =~= seq![dec_digit(d as int)]);
    }
    r
}

/// The decimal form of `n`.
pub fn u64_to_string(n: u64) -> (r: String)
    ensures
        r@ == dec_nat(n as nat),
    decreases n,
{
    if n < 10 {
        digit_str(n).to_owned()
    } else {
        let mut r = u64_to_string(n / 10);
        let ghost r_prev = r@;
        r.append(digit_str(n % 10));
        proof {
            assert(r@ =~= dec_nat((n / 10) as nat) + seq![dec_digit((n % 10) as int)]);
        }
        r
    }
}

/// The decimal form of `v`, signed.
pub fn i32_to_string(v: i32) -> (r: String)
    ensures
        r@ == dec_int(v as int),
{
    if v >= 0 {
        u64_to_string(v as u64)
    } else {
        let m: i64 = -(v as i64);
        let mut r = String::new();
        r.append("-");
        proof {
            reveal_strlit("-");
            assert(r@ =~= seq!['-']);
        }
        let digits = u64_to_string(m as u64);
        r.append(digits.as_str());
        proof {
            assert(r@ =~= seq!['-'] + dec_nat((-(v as int)) as nat));
        }
        r
    }
}

/// Every line of `s` prefixed with four spaces: four spaces up front, and
/// four more after every newline.
pub open spec fn indent_chars(s: Seq<char>) -> Seq<char>
    decreases s.len(),
{
    if s.len() == 0 {
        Seq::empty()
    } else if s[0] == '\n' {
        "\n    "@ + indent_chars(s.drop_first())
    } else {
        seq![s[0]] + indent_chars(s.drop_first())
    }
}

/// The shape of an indented passage, as the topic prompt embeds it.
pub open spec fn indent_spec(s: Seq<char>) -> Seq<char> {
    "    "@ + indent_chars(s)
}

/// Indents a passage: each of its newline-separated lines gains a four-space
/// prefix.
pub fn indent(s: &str) -> (r: String)
    ensures
        r@ == indent_spec(s@),
{
    let len = s.unicode_len();
    let mut r = String::new();
    r.append("    ");
    let mut i: usize = 0;
    proof {
        assert(s@.skip(0) =~= s@);
        assert(r@ =~= "    "@);
    }
    while i < len
        invariant
            len == s@.len(),
            i <= len,
            indent_spec(s@) =~= r@ + indent_chars(s@.skip(i as int)),
        decreases len - i,
    {
        let c = s.get_char(i);
        proof {
            assert(s@.skip(i as int).drop_first() =~= s@.skip(i + 1));
            assert(s@.skip(i as int)[0] == s@[i as int]);
        }
        if c == '\n' {
            r.append("\n    ");
        } else {
            let ghost r_prev = r@;
            push_char(&mut r, c);
            proof {
                assert(r@ =~= r_prev + seq![c]);
            }
        }
        i = i + 1;
    }
    proof {
        assert(s@.skip(len as int) =~= Seq::<char>::empty());
        assert(indent_chars(Seq::<char>::empty()) =~= Seq::<char>::empty());
        assert(r@ + Seq::<char>::empty() =~= r@);
    }
    r
}

/// The elements of `parts` in order, with `sep` between neighbours.
pub open spec fn join_spec(parts: Seq<Seq<char>>, sep: Seq<char>) -> Seq<char>
    decreases parts.len(),
{
    if parts.len() == 0 {
        Seq::empty()
    } else if parts.len() == 1 {
        parts[0]
    } else {
        parts[0] + sep + join_spec(parts.drop_first(), sep)
    }
}

proof fn lemma_join_push(parts: Seq<Seq<char>>, sep: Seq<char>, last: Seq<char>)
    requires
        parts.len() > 0,
    ensures
        join_spec(parts.push(last), sep) == join_spec(parts, sep) + sep + last,
    decreases parts.len(),
{
    if parts.len() == 1 {
        assert(parts.push(last).drop_first() =~= seq![last]);
        assert(join_spec(seq![last], sep) == last);
        assert(parts.push(last)[0] == parts[0]);
        assert(join_spec(parts.push(last), sep) =~= parts[0] + sep + last);
    } else {
        assert(parts.push(last).drop_first() =~= parts.drop_first().push(last));
        lemma_join_push(parts.drop_first(), sep, last);
        assert(join_spec(parts.push(last), sep) =~= join_spec(parts, sep) + sep + last);
    }
}

/// Concatenates `parts` with `sep` between neighbours.
pub fn join_with(parts: &Vec<String>, sep: &str) -> (r: String)
    ensures
        r@ == join_spec(parts.deep_view(), sep@),
{
    let mut r = String::new();
    let n = parts.len();
    let mut i: usize = 0;
    while i < n
        invariant
            n == parts@.len(),
            i <= n,
            r@ == join_spec(parts.deep_view().take(i as int), sep@),
        decreases n - i,
    {
        if i > 0 {
            r.append(sep);
        }
        r.append(parts[i].as_str());
        proof {
            let dv = parts.deep_view();
            assert(dv.take(i + 1) =~= dv.take(i as int).push(dv[i as int]));
            if i > 0 {
                lemma_join_push(dv.take(i as int), sep@, dv[i as int]);
            }
        }
        i = i + 1;
    }
    proof {
        assert(parts.deep_view().take(n as int) =~= parts.deep_view());
    }
    r
}

/// `s` split at each `sep`, the separators dropped, scanning left to right
/// with `cur` holding the piece read so far.
pub open spec fn split_acc(s: Seq<char>, sep: char, cur: Seq<char>) -> Seq<Seq<char>>
    decreases s.len(),
{
    if s.len() == 0 {
        seq![cur]
    } else if s[0] == sep {
        seq![cur] + split_acc(s.drop_first(), sep, Seq::empty())
    } else {
        split_acc(s.drop_first(), sep, cur.push(s[0]))
    }
}

/// The comma-separated tokens of `s`, each trimmed: the shape of a stored
/// tag list.
pub open spec fn split_trim_spec(s: Seq<char>) -> Seq<Seq<char>> {
    split_acc(s, ',', Seq::empty()).map_values(|t: Seq<char>| trimmed_of(t))
}

/// Splits `s` at commas and trims each token.
pub fn split_trim(s: &str) -> (r: Vec<String>)
    ensures
        r.deep_view() == split_trim_spec(s@),
{
    let pieces = split_char_str(s, ',');
    let n = pieces.len();
    let mut out: Vec<String> = Vec::new();
    let mut i: usize = 0;
    while i < n
        invariant
            n == pieces@.len(),
            i <= n,
            out.deep_view() =~= pieces.deep_view().take(i as int).map_values(
                |t: Seq<char>| trimmed_of(t),
            ),
        decreases n - i,
    {
        let ghost out_prev = out.deep_view();
        out.push(trim_str(pieces[i].as_str()));
        proof {
            assert(pieces.deep_view()[i as int] == pieces@[i as int]@);
            assert(out.deep_view() =~= out_prev.push(trimmed_of(pieces.deep_view()[i as int])));
            assert(pieces.deep_view().take(i + 1) =~= pieces.deep_view().take(i as int).push(
                pieces.deep_view()[i as int],
            ));
            assert(out.deep_view() =~= pieces.deep_view().take(i + 1).map_values(
                |t: Seq<char>| trimmed_of(t),
            ));
        }
        i = i + 1;
    }
    proof {
        assert(pieces.deep_view().take(n as int) =~= pieces.deep_view());
    }
    out
}

/// Splits `s` at each occurrence of `sep`, dropping the separators.
pub fn split_char_str(s: &str, sep: char) -> (r: Vec<String>)
    ensures
        r.deep_view() == split_acc(s@, sep, Seq::empty()),
{
    let len = s.unicode_len();
    let mut out: Vec<String> = Vec::new();
    let mut cur = String::new();
    let mut i: usize = 0;
    proof {
        assert(s@.skip(0) =~= s@);
        assert(out.deep_view() + split_acc(s@, sep, Seq::empty()) =~= split_acc(
            s@,
            sep,
            Seq::empty(),
        ));
    }
    while i < len
        invariant
            len == s@.len(),
            i <= len,
            split_acc(s@, sep, Seq::empty()) =~= out.deep_view() + split_acc(
                s@.skip(i as int),
                sep,
                cur@,
            ),
        decreases len - i,
    {
        let c = s.get_char(i);
        proof {
            assert(s@.skip(i as int).drop_first() =~= s@.skip(i + 1));
            assert(s@.skip(i as int)[0] == s@[i as int]);
        }
        if c == sep {
            let ghost out_prev = out.deep_view();
            let ghost cur_prev = cur@;
            out.push(cur);
            cur = String::new();
            proof {
                assert(out.deep_view() =~= out_prev.push(cur_prev));
                assert(out.deep_view() + split_acc(s@.skip(i + 1), sep, Seq::empty()) =~= out_prev
                    + (seq![cur_prev] + split_acc(s@.skip(i + 1), sep, Seq::empty())));
            }
        } else {
            push_char(&mut cur, c);
        }
        i = i + 1;
    }
    proof {
        assert(s@.skip(len as int) =~= Seq::<char>::empty());
        assert(split_acc(s@.skip(len as int), sep, cur@) =~= seq![cur@]);
    }
    let ghost out_prev = out.deep_view();
    let ghost cur_prev = cur@;
    out.push(cur);
    proof {
        assert(out.deep_view() =~= out_prev.push(cur_prev));
        assert(out_prev.push(cur_prev) =~= out_prev + seq![cur_prev]);
    }
    out
}

} // verus!
