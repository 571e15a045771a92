//! Verified string utilities: splitting on a delimiter, joining with a
//! separator, substring search, character filtering and decimal rendering.
//! The manifest log format and the identifier-derivation rule are specified
//! and proved in terms of these functions.

use vstd::prelude::*;
use vstd::string::*;

verus! {

/// Relies on String::push: it appends exactly the given character.
#[verifier::external_body]
pub(crate) fn push_char(s: &mut String, c: char)
    ensures
        final(s)@ == old(s)@.push(c),
{
    s.push(c);
}

/// Splits `s` at every occurrence of the delimiter `d`.  The result always
/// holds at least one element; empty runs between delimiters are kept, so
/// the split of the empty sequence is one empty part.
pub open spec fn split_on(s: Seq<char>, d: char) -> Seq<Seq<char>>
    decreases s.len(),
{
    if s.len() == 0 {
        seq![s]
    } else if s[0] == d {
        seq![Seq::<char>::empty()] + split_on(s.skip(1), d)
    } else {
        let rest = split_on(s.skip(1), d);
        seq![seq![s[0]] + rest[0]] + rest.drop_first()
    }
}

/// Joins the parts with the separator `sep` between consecutive parts.
pub open spec fn join_sep(parts: Seq<Seq<char>>, sep: Seq<char>) -> Seq<char>
    decreases parts.len(),
{
    if parts.len() == 0 {
        Seq::<char>::empty()
    } else if parts.len() == 1 {
        parts[0]
    } else {
        parts[0] + sep + join_sep(parts.drop_first(), sep)
    }
}

/// A split yields at least one part.
pub proof fn lemma_split_len_pos(s: Seq<char>, d: char)
    ensures
        split_on(s, d).len() >= 1,
    decreases s.len(),
{
    if s.len() == 0 {
    } else if s[0] == d {
        lemma_split_len_pos(s.skip(1), d);
    } else {
        lemma_split_len_pos(s.skip(1), d);
    }
}

/// A sequence free of the delimiter splits into itself alone.
pub proof fn lemma_split_no_delim(s: Seq<char>, d: char)
    requires
        !s.contains(d),
    ensures
        split_on(s, d) =~= seq![s],
    decreases s.len(),
{
    if s.len() == 0 {
    } else {
        assert(s[0] != d);
        assert(!s.skip(1).contains(d)) by {
            assert forall|i: int| 0 <= i < s.skip(1).len() implies s.skip(1)[i] != d by {
                assert(s.skip(1)[i] == s[i + 1]);
            }
        }
        lemma_split_no_delim(s.skip(1), d);
        assert(split_on(s, d)[0] =~= s);
    }
}

/// Splitting distributes over a delimiter that stands between two pieces.
pub proof fn lemma_split_append(x: Seq<char>, y: Seq<char>, d: char)
    ensures
        split_on(x + seq![d] + y, d) =~= split_on(x, d) + split_on(y, d),
    decreases x.len(),
{
    let s = x + seq![d] + y;
    if x.len() == 0 {
        assert(s =~= seq![d] + y);
        assert(s[0] == d);
        assert(s.skip(1) =~= y);
        assert(split_on(s, d) =~= seq![Seq::<char>::empty()] + split_on(y, d));
        assert(split_on(x, d) =~= seq![x]);
        assert(x =~= Seq::<char>::empty());
    } else {
        assert(s[0] == x[0]);
        assert(s.skip(1) =~= x.skip(1) + seq![d] + y);
        lemma_split_append(x.skip(1), y, d);
        lemma_split_len_pos(x.skip(1), d);
        lemma_split_len_pos(y, d);
        let rx = split_on(x.skip(1), d);
        let rest = split_on(s.skip(1), d);
        assert(rest =~= rx + split_on(y, d));
        assert(rest[0] == rx[0]);
        if x[0] == d {
            assert(x.skip(1) =~= Seq::<char>::empty() + x.skip(1));
            assert(split_on(s, d) =~= seq![Seq::<char>::empty()] + rest);
            assert(split_on(x, d) =~= seq![Seq::<char>::empty()] + rx);
        } else {
            assert(rest.drop_first() =~= rx.drop_first() + split_on(y, d));
            assert(split_on(s, d) =~= seq![seq![s[0]] + rest[0]] + rest.drop_first());
            assert(split_on(x, d) =~= seq![seq![x[0]] + rx[0]] + rx.drop_first());
        }
    }
}

/// No part of a split contains the delimiter.
pub proof fn lemma_split_parts_clean(s: Seq<char>, d: char, k: int)
    requires
        0 <= k < split_on(s, d).len(),
    ensures
        !split_on(s, d)[k].contains(d),
    decreases s.len(),
{
    if s.len() == 0 {
        assert(!s.contains(d));
    } else if s[0] == d {
        if k == 0 {
            assert(!Seq::<char>::empty().contains(d));
        } else {
            lemma_split_parts_clean(s.skip(1), d, k - 1);
        }
    } else {
        let rest = split_on(s.skip(1), d);
        lemma_split_len_pos(s.skip(1), d);
        if k == 0 {
            lemma_split_parts_clean(s.skip(1), d, 0);
            let p = seq![s[0]] + rest[0];
            assert forall|i: int| 0 <= i < p.len() implies p[i] != d by {
                if i == 0 {
                } else {
                    assert(p[i] == rest[0][i - 1]);
                }
            }
            assert(!p.contains(d));
        } else {
            lemma_split_parts_clean(s.skip(1), d, k);
            assert(split_on(s, d)[k] == rest.drop_first()[k - 1]);
            assert(rest.drop_first()[k - 1] == rest[k]);
        }
    }
}

/// Joining the parts of a split with the same delimiter restores the input.
pub proof fn lemma_join_split(s: Seq<char>, d: char)
    ensures
        join_sep(split_on(s, d), seq![d]) =~= s,
    decreases s.len(),
{
    if s.len() == 0 {
    } else if s[0] == d {
        lemma_join_split(s.skip(1), d);
        lemma_split_len_pos(s.skip(1), d);
        let parts = split_on(s, d);
        assert(parts.drop_first() =~= split_on(s.skip(1), d));
        assert(join_sep(parts, seq![d]) =~= Seq::<char>::empty() + seq![d] + s.skip(1));
        assert(s =~= Seq::<char>::empty() + seq![d] + s.skip(1));
    } else {
        lemma_join_split(s.skip(1), d);
        lemma_split_len_pos(s.skip(1), d);
        let rest = split_on(s.skip(1), d);
        let parts = split_on(s, d);
        if rest.len() == 1 {
            assert(parts =~= seq![seq![s[0]] + rest[0]]);
            assert(join_sep(parts, seq![d]) =~= seq![s[0]] + rest[0]);
            assert(join_sep(rest, seq![d]) == rest[0]);
            assert(s =~= seq![s[0]] + s.skip(1));
        } else {
            assert(parts.len() > 1);
            assert(parts[0] == seq![s[0]] + rest[0]);
            assert(parts.drop_first() =~= rest.drop_first());
            assert(join_sep(rest, seq![d]) =~= rest[0] + seq![d] + join_sep(
                rest.drop_first(),
                seq![d],
            ));
            assert(join_sep(parts, seq![d]) =~= parts[0] + seq![d] + join_sep(
                parts.drop_first(),
                seq![d],
            ));
            assert(s =~= seq![s[0]] + s.skip(1));
        }
    }
}

/// Splitting a join on the delimiter restores the parts, provided no part
/// contains the delimiter.
pub proof fn lemma_split_join(parts: Seq<Seq<char>>, d: char)
    requires
        parts.len() >= 1,
        forall|k: int| 0 <= k < parts.len() ==> !(#[trigger] parts[k]).contains(d),
    ensures
        split_on(join_sep(parts, seq![d]), d) =~= parts,
    decreases parts.len(),
{
    if parts.len() == 1 {
        lemma_split_no_delim(parts[0], d);
        assert(join_sep(parts, seq![d]) == parts[0]);
    } else {
        let rest = parts.drop_first();
        assert(forall|k: int|
            0 <= k < rest.len() ==> !(#[trigger] rest[k]).contains(d)) by {
            assert forall|k: int| 0 <= k < rest.len() implies !(#[trigger] rest[k]).contains(
                d,
            ) by {
                assert(rest[k] == parts[k + 1]);
            }
        }
        lemma_split_join(rest, d);
        let j = join_sep(rest, seq![d]);
        assert(join_sep(parts, seq![d]) =~= parts[0] + seq![d] + j);
        lemma_split_append(parts[0], j, d);
        lemma_split_no_delim(parts[0], d);
        assert(split_on(join_sep(parts, seq![d]), d) =~= seq![parts[0]] + rest);
        assert(seq![parts[0]] + rest =~= parts);
    }
}

/// `pat` occurs in `s` as a contiguous run of characters.
pub open spec fn spec_has_substring(s: Seq<char>, pat: Seq<char>) -> bool {
    exists|k: int|
        0 <= k <= s.len() - pat.len() && #[trigger] s.subrange(k, k + pat.len() as int) == pat
}

/// Character-for-character string equality, decided without any assumption
/// on the contents.
pub fn str_eq(a: &str, b: &str) -> (r: bool)
    ensures
        r == (a@ == b@),
{
    let n = a.unicode_len();
    let m = b.unicode_len();
    if n != m {
        return false;
    }
    let mut i: usize = 0;
    while i < n
        invariant
            n == a@.len(),
            n == b@.len(),
            i <= n,
            forall|j: int| 0 <= j < i ==> a@[j] == b@[j],
        decreases n - i,
    {
        if a.get_char(i) != b.get_char(i) {
            return false;
        }
        i = i + 1;
    }
    proof {
        assert(a@ =~= b@);
    }
    true
}

/// Substring search: whether `pat` occurs anywhere in `s`.
pub fn str_contains(s: &str, pat: &str) -> (r: bool)
    ensures
        r == spec_has_substring(s@, pat@),
{
    let n = s.unicode_len();
    let m = pat.unicode_len();
    if m > n {
        return false;
    }
    if m == 0 {
        proof {
            assert(s@.subrange(0, 0 + pat@.len() as int) =~= pat@);
            assert(spec_has_substring(s@, pat@));
        }
        return true;
    }
    let mut k: usize = 0;
    while k <= n - m
        invariant
            n == s@.len(),
            m == pat@.len(),
            1 <= m <= n,
            k <= n - m + 1,
            forall|k2: int|
                0 <= k2 < k ==> #[trigger] s@.subrange(k2, k2 + m as int) != pat@,
        decreases n - m + 1 - k,
    {
        let mut j: usize = 0;
        let mut matches_here = true;
        while j < m && matches_here
            invariant
                n == s@.len(),
                m == pat@.len(),
                m <= n,
                k <= n - m,
                j <= m,
                matches_here ==> forall|j2: int| 0 <= j2 < j ==> s@[k + j2] == pat@[j2],
                !matches_here ==> s@.subrange(k as int, k + m as int) != pat@,
            decreases m - j,
        {
            if s.get_char(k + j) != pat.get_char(j) {
                proof {
                    assert(s@.subrange(k as int, k + m as int)[j as int] == s@[k + j]);
                }
                matches_here = false;
            }
            j = j + 1;
        }
        if matches_here {
            proof {
                assert(s@.subrange(k as int, k + m as int) =~= pat@);
            }
            return true;
        }
        k = k + 1;
    }
    false
}

/// `pat` occurs in `s` exactly at position `k`.
pub open spec fn spec_found_at(s: Seq<char>, pat: Seq<char>, k: int) -> bool {
    0 <= k <= s.len() - pat.len() && s.subrange(k, k + pat.len() as int) == pat
}

/// Splits at the first occurrence of `pat`: the part before the occurrence
/// and the part after it, the occurrence itself dropped.  Without an
/// occurrence the whole input comes back first and the second part is empty.
pub fn split_at_first<'a>(s: &'a str, pat: &str) -> (r: (&'a str, &'a str))
    ensures
        spec_has_substring(s@, pat@) ==> exists|k: int|
            {
                &&& #[trigger] spec_found_at(s@, pat@, k)
                &&& forall|j: int| 0 <= j < k ==> !spec_found_at(s@, pat@, j)
                &&& r.0@ == s@.take(k)
                &&& r.1@ == s@.skip(k + pat@.len() as int)
            },
        !spec_has_substring(s@, pat@) ==> r.0@ == s@ && r.1@ == Seq::<char>::empty(),
{
    let n = s.unicode_len();
    let m = pat.unicode_len();
    if m <= n {
        let mut k: usize = 0;
        while k <= n - m
            invariant
                n == s@.len(),
                m == pat@.len(),
                m <= n,
                k <= n - m + 1,
                forall|j: int| 0 <= j < k ==> !spec_found_at(s@, pat@, j),
            decreases n - m + 1 - k,
        {
            let mut j: usize = 0;
            let mut matches_here = true;
            while j < m && matches_here
                invariant
                    n == s@.len(),
                    m == pat@.len(),
                    m <= n,
                    k <= n - m,
                    j <= m,
                    matches_here ==> forall|j2: int| 0 <= j2 < j ==> s@[k + j2] == pat@[j2],
                    !matches_here ==> !spec_found_at(s@, pat@, k as int) && m >= 1,
                decreases m - j,
            {
                if s.get_char(k + j) != pat.get_char(j) {
                    proof {
                        assert(s@.subrange(k as int, k + m as int)[j as int] == s@[k + j]);
                    }
                    matches_here = false;
                }
                j = j + 1;
            }
            if matches_here {
                proof {
                    assert(s@.subrange(k as int, k + m as int) =~= pat@);
                    assert(spec_found_at(s@, pat@, k as int));
                }
                let before = s.substring_char(0, k);
                let after = s.substring_char(k + m, n);
                proof {
                    assert(before@ =~= s@.take(k as int));
                    assert(after@ =~= s@.skip(k + pat@.len() as int));
                }
                return (before, after);
            }
            k = k + 1;
        }
        proof {
            assert forall|k2: int|
                0 <= k2 <= s@.len() - pat@.len() implies #[trigger] s@.subrange(
                k2,
                k2 + pat@.len() as int,
            ) != pat@ by {
                assert(!spec_found_at(s@, pat@, k2));
            }
        }
        let after = s.substring_char(n, n);
        proof {
            assert(after@ =~= Seq::<char>::empty());
        }
        (s, after)
    } else {
        let after = s.substring_char(n, n);
        proof {
            assert(after@ =~= Seq::<char>::empty());
        }
        (s, after)
    }
}

/// The views of the strings in `v`, in order.
pub open spec fn views_of(v: Seq<String>) -> Seq<Seq<char>> {
    v.map_values(|t: String| t@)
}

/// Splits `s` at every occurrence of `d`, as [`split_on`] describes.
pub fn split_on_char(s: &str, d: char) -> (parts: Vec<String>)
    ensures
        views_of(parts@) == split_on(s@, d),
        parts@.len() >= 1,
{
    let n = s.unicode_len();
    let mut parts: Vec<String> = Vec::new();
    let mut start: usize = 0;
    let mut i: usize = 0;
    proof {
        assert(s@.skip(0) =~= s@);
        assert(views_of(parts@) =~= Seq::<Seq<char>>::empty());
        assert(views_of(parts@) + split_on(s@.skip(0), d) =~= split_on(s@, d));
    }
    while i < n
        invariant
            n == s@.len(),
            start <= i <= n,
            forall|j: int| start <= j < i ==> s@[j] != d,
            split_on(s@, d) =~= views_of(parts@) + split_on(s@.skip(start as int), d),
        decreases n - i,
    {
        if s.get_char(i) == d {
            let tok = s.substring_char(start, i);
            let ghost old_parts = parts@;
            parts.push(tok.to_owned());
            proof {
                let piece = s@.subrange(start as int, i as int);
                assert(s@.skip(start as int) =~= piece + seq![d] + s@.skip(i + 1));
                lemma_split_append(piece, s@.skip(i + 1), d);
                assert(!piece.contains(d)) by {
                    assert forall|j: int| 0 <= j < piece.len() implies piece[j] != d by {
                        assert(piece[j] == s@[start + j]);
                    }
                }
                lemma_split_no_delim(piece, d);
                assert(views_of(parts@) =~= views_of(old_parts).push(piece));
            }
            start = i + 1;
        }
        i = i + 1;
    }
    let tok = s.substring_char(start, n);
    let ghost old_parts = parts@;
    parts.push(tok.to_owned());
    proof {
        let piece = s@.subrange(start as int, n as int);
        assert(s@.skip(start as int) =~= piece);
        assert(!piece.contains(d)) by {
            assert forall|j: int| 0 <= j < piece.len() implies piece[j] != d by {
                assert(piece[j] == s@[start + j]);
            }
        }
        lemma_split_no_delim(piece, d);
        assert(views_of(parts@) =~= views_of(old_parts).push(piece));
        assert(split_on(s@, d) =~= views_of(parts@));
    }
    parts
}

/// Joining one more part appends a separator and the part.
pub proof fn lemma_join_sep_push(parts: Seq<Seq<char>>, p: Seq<char>, sep: Seq<char>)
    requires
        parts.len() >= 1,
    ensures
        join_sep(parts.push(p), sep) =~= join_sep(parts, sep) + sep + p,
    decreases parts.len(),
{
    if parts.len() == 1 {
        let two = parts.push(p);
        assert(two.len() == 2);
        assert(two.drop_first() =~= seq![p]);
        assert(join_sep(seq![p], sep) == p);
        assert(two[0] == parts[0]);
        assert(join_sep(two, sep) == two[0] + sep + join_sep(two.drop_first(), sep));
        assert(join_sep(two, sep) =~= parts[0] + sep + p);
    } else {
        lemma_join_sep_push(parts.drop_first(), p, sep);
        let whole = parts.push(p);
        assert(whole.drop_first() =~= parts.drop_first().push(p));
        assert(join_sep(whole, sep) =~= whole[0] + sep + join_sep(
            parts.drop_first().push(p),
            sep,
        ));
        assert(join_sep(parts, sep) =~= parts[0] + sep + join_sep(parts.drop_first(), sep));
    }
}

/// Joins the parts with the separator, as [`join_sep`] describes.
pub fn join_with(parts: &Vec<String>, sep: &str) -> (r: String)
    ensures
        r@ == join_sep(views_of(parts@), sep@),
{
    let mut r = String::new();
    let n = parts.len();
    let mut i: usize = 0;
    while i < n
        invariant
            n == parts@.len(),
            i <= n,
            r@ =~= join_sep(views_of(parts@).take(i as int), sep@),
        decreases n - i,
    {
        let ghost prefix = views_of(parts@).take(i as int);
        if i > 0 {
            r.append(sep);
        }
        r.append(parts[i].as_str());
        proof {
            assert(views_of(parts@).take(i + 1) =~= prefix.push(parts@[i as int]@));
            if i == 0 {
                assert(join_sep(views_of(parts@).take(1), sep@) == views_of(parts@)[0]);
            } else {
                lemma_join_sep_push(prefix, parts@[i as int]@, sep@);
            }
        }
        i = i + 1;
    }
    proof {
        assert(views_of(parts@).take(n as int) =~= views_of(parts@));
    }
    r
}

/// The characters the log parser discards before splitting a line.
pub open spec fn is_stripped_char(c: char) -> bool {
    c == ' ' || c == '"' || c == '[' || c == ']'
}

/// A line with the decoration characters removed.
pub open spec fn strip_chars(s: Seq<char>) -> Seq<char> {
    s.filter(|c: char| !is_stripped_char(c))
}

/// Filtering distributes over concatenation; specialised to [`strip_chars`].
pub proof fn lemma_strip_append(x: Seq<char>, y: Seq<char>)
    ensures
        strip_chars(x + y) =~= strip_chars(x) + strip_chars(y),
{
    Seq::<char>::filter_distributes_over_add(x, y, |c: char| !is_stripped_char(c));
}

/// A sequence without decoration characters is left unchanged by stripping.
pub proof fn lemma_strip_clean(s: Seq<char>)
    requires
        forall|i: int| 0 <= i < s.len() ==> !is_stripped_char(#[trigger] s[i]),
    ensures
        strip_chars(s) =~= s,
    decreases s.len(),
{
    if s.len() == 0 {
    } else {
        assert(s =~= s.drop_last().push(s.last()));
        assert forall|i: int|
            0 <= i < s.drop_last().len() implies !is_stripped_char(
            #[trigger] s.drop_last()[i],
        ) by {
            assert(s.drop_last()[i] == s[i]);
        }
        lemma_strip_clean(s.drop_last());
        reveal(Seq::filter);
    }
}

/// A sequence of decoration characters strips to nothing.
pub proof fn lemma_strip_all(s: Seq<char>)
    requires
        forall|i: int| 0 <= i < s.len() ==> is_stripped_char(#[trigger] s[i]),
    ensures
        strip_chars(s) =~= Seq::<char>::empty(),
    decreases s.len(),
{
    if s.len() == 0 {
    } else {
        assert(s =~= s.drop_last().push(s.last()));
        assert forall|i: int|
            0 <= i < s.drop_last().len() implies is_stripped_char(
            #[trigger] s.drop_last()[i],
        ) by {
            assert(s.drop_last()[i] == s[i]);
        }
        lemma_strip_all(s.drop_last());
        reveal(Seq::filter);
    }
}

/// Removes the decoration characters from a line.
pub fn strip_line(s: &str) -> (r: String)
    ensures
        r@ == strip_chars(s@),
{
    let n = s.unicode_len();
    let mut r = String::new();
    let mut i: usize = 0;
    while i < n
        invariant
            n == s@.len(),
            i <= n,
            r@ =~= strip_chars(s@.take(i as int)),
        decreases n - i,
    {
        let c = s.get_char(i);
        proof {
            assert(s@.take(i + 1) =~= s@.take(i as int).push(c));
            lemma_strip_append(s@.take(i as int), seq![c]);
            assert(s@.take(i + 1) =~= s@.take(i as int) + seq![c]);
            if is_stripped_char(c) {
                lemma_strip_all(seq![c]);
            } else {
                lemma_strip_clean(seq![c]);
            }
        }
        if c != ' ' && c != '"' && c != '[' && c != ']' {
            push_char(&mut r, c);
        }
        i = i + 1;
    }
    proof {
        assert(s@.take(n as int) =~= s@);
    }
    r
}

/// The decimal digit characters.
pub open spec fn is_digit_char(c: char) -> bool {
    c == '0' || c == '1' || c == '2' || c == '3' || c == '4' || c == '5' || c == '6' || c == '7'
        || c == '8' || c == '9'
}

/// Decides [`is_digit_char`].
pub fn is_digit(c: char) -> (r: bool)
    ensures
        r == is_digit_char(c),
{
    c == '0' || c == '1' || c == '2' || c == '3' || c == '4' || c == '5' || c == '6' || c == '7'
        || c == '8' || c == '9'
}

/// The digit character of a value below ten.
pub open spec fn spec_digit(d: int) -> char {
    if d == 0 {
        '0'
    } else if d == 1 {
        '1'
    } else if d == 2 {
        '2'
    } else if d == 3 {
        '3'
    } else if d == 4 {
        '4'
    } else if d == 5 {
        '5'
    } else if d == 6 {
        '6'
    } else if d == 7 {
        '7'
    } else if d == 8 {
        '8'
    } else {
        '9'
    }
}

/// The decimal rendering of `n`, most significant digit first.
pub open spec fn spec_dec(n: nat) -> Seq<char>
    decreases n,
{
    if n < 10 {
        seq![spec_digit(n as int)]
    } else {
        spec_dec(n / 10).push(spec_digit((n % 10) as int))
    }
}

/// Every character of a decimal rendering is a digit.
pub proof fn lemma_dec_digits(n: nat, i: int)
    requires
        0 <= i < spec_dec(n).len(),
    ensures
        is_digit_char(spec_dec(n)[i]),
    decreases n,
{
    if n < 10 {
    } else {
        if i < spec_dec(n).len() - 1 {
            lemma_dec_digits(n / 10, i);
        }
    }
}

fn digit_str(d: usize) -> (r: &'static str)
    requires
        d < 10,
    ensures
        r@ =~= seq![spec_digit(d as int)],
{
    proof {
        reveal_strlit("0");
        reveal_strlit("1");
        reveal_strlit("2");
        reveal_strlit("3");
        reveal_strlit("4");
        reveal_strlit("5");
        reveal_strlit("6");
        reveal_strlit("7");
        reveal_strlit("8");
        reveal_strlit("9");
    }
    match d {
        0 => "0",
        1 => "1",
        2 => "2",
        3 => "3",
        4 => "4",
        5 => "5",
        6 => "6",
        7 => "7",
        8 => "8",
        _ => "9",
    }
}

/// Renders `n` in decimal, as [`spec_dec`] describes.
pub fn usize_to_string(n: usize) -> (r: String)
    ensures
        r@ == spec_dec(n as nat),
    decreases n,
{
    if n < 10 {
        String::from_str(digit_str(n))
    } else {
        let mut r = usize_to_string(n / 10);
        r.append(digit_str(n % 10));
        proof {
            assert(r@ =~= spec_dec((n / 10) as nat).push(spec_digit((n % 10) as int)));
        }
        r
    }
}

} // verus!
