//! The manifest log format: one line per manifest, `<index>,[<e1>, <e2>,
//! ...]` with each entry quoted, and the parser that strips the decoration
//! and recovers the ordered entry list.  Writing the parse back is proved to
//! round-trip.

use vstd::prelude::*;
use vstd::string::*;

use crate::strutil::{
    is_digit, is_digit_char, is_stripped_char, join_sep, lemma_dec_digits, lemma_join_sep_push,
    lemma_split_join, lemma_split_len_pos, lemma_strip_all, lemma_strip_append,
    lemma_strip_clean, push_char, spec_dec, split_on, split_on_char, strip_chars, strip_line,
    usize_to_string, views_of,
};

verus! {

/// An entry as the log renders it: surrounded by quotes.
pub open spec fn spec_quote(t: Seq<char>) -> Seq<char> {
    seq!['"'] + t + seq!['"']
}

/// The bracketed, comma-space separated, quoted rendering of the entries.
pub open spec fn spec_render_list(es: Seq<Seq<char>>) -> Seq<char> {
    seq!['['] + join_sep(es.map_values(|t: Seq<char>| spec_quote(t)), seq![',', ' ']) + seq![']']
}

/// One log line: the one-based index, a comma, and the rendered entry list.
pub open spec fn spec_format_line(index: nat, es: Seq<Seq<char>>) -> Seq<char> {
    spec_dec(index) + seq![','] + spec_render_list(es)
}

/// What the parser keeps of a line: the decoration characters are removed,
/// the rest is split on commas, and the leading index field is dropped.
pub open spec fn spec_parse_line(line: Seq<char>) -> Seq<Seq<char>> {
    split_on(strip_chars(line), ',').drop_first()
}

fn quoted_join(entries: &Vec<String>) -> (r: String)
    ensures
        r@ == join_sep(
            views_of(entries@).map_values(|t: Seq<char>| spec_quote(t)),
            seq![',', ' '],
        ),
{
    let ghost qs = views_of(entries@).map_values(|t: Seq<char>| spec_quote(t));
    let ghost sep = seq![',', ' '];
    let n = entries.len();
    let mut r = String::new();
    let mut k: usize = 0;
    proof {
        assert(r@ =~= join_sep(qs.take(0), sep));
    }
    while k < n
        invariant
            n == entries@.len(),
            k <= n,
            qs == views_of(entries@).map_values(|t: Seq<char>| spec_quote(t)),
            sep == seq![',', ' '],
            r@ =~= join_sep(qs.take(k as int), sep),
        decreases n - k,
    {
        let ghost prefix = qs.take(k as int);
        if k > 0 {
            r.append(", ");
        }
        push_char(&mut r, '"');
        r.append(entries[k].as_str());
        push_char(&mut r, '"');
        proof {
            reveal_strlit(", ");
            assert(", "@ =~= sep);
            assert(qs[k as int] == spec_quote(entries@[k as int]@));
            assert(qs.take(k + 1) =~= prefix.push(qs[k as int]));
            if k == 0 {
                assert(join_sep(qs.take(1), sep) == qs[0]);
                assert(r@ =~= qs[0]);
            } else {
                lemma_join_sep_push(prefix, qs[k as int], sep);
                assert(r@ =~= join_sep(prefix, sep) + sep + qs[k as int]);
            }
        }
        k = k + 1;
    }
    proof {
        assert(qs.take(n as int) =~= qs);
    }
    r
}

/// Renders one log line for the manifest at the given one-based index, as
/// [`spec_format_line`] describes.
pub fn format_line(index: usize, entries: &Vec<String>) -> (r: String)
    ensures
        r@ == spec_format_line(index as nat, views_of(entries@)),
{
    let mut r = usize_to_string(index);
    push_char(&mut r, ',');
    push_char(&mut r, '[');
    let inner = quoted_join(entries);
    r.append(inner.as_str());
    push_char(&mut r, ']');
    proof {
        assert(r@ =~= spec_format_line(index as nat, views_of(entries@)));
    }
    r
}

/// Parses one log line back into its entry list, as [`spec_parse_line`]
/// describes.  Any line parses; a line that was not written by
/// [`format_line`] simply yields whatever fields stand between its commas.
pub fn parse_line(line: &str) -> (parts: Vec<String>)
    ensures
        views_of(parts@) == spec_parse_line(line@),
{
    let stripped = strip_line(line);
    let mut parts = split_on_char(stripped.as_str(), ',');
    let ghost old_parts = views_of(parts@);
    parts.remove(0);
    proof {
        assert(views_of(parts@) =~= old_parts.drop_first());
    }
    parts
}

/// The line starts with `k` digit characters — at least one — followed by
/// a comma and an opening bracket, and ends with a closing bracket.  Since
/// a comma is no digit, at most one `k` can satisfy this.
pub open spec fn spec_index_prefix(line: Seq<char>, k: int) -> bool {
    &&& 1 <= k
    &&& k + 1 < line.len()
    &&& (forall|j: int| 0 <= j < k ==> is_digit_char(#[trigger] line[j]))
    &&& line[k] == ','
    &&& line[k + 1] == '['
    &&& line[line.len() - 1] == ']'
}

/// A line in the shape the store writes: `<index>,[...]`.
pub open spec fn spec_line_wf(line: Seq<char>) -> bool {
    exists|k: int| spec_index_prefix(line, k)
}

/// The length of the leading digit run.
fn digit_run(line: &str) -> (k: usize)
    ensures
        k <= line@.len(),
        forall|j: int| 0 <= j < k ==> is_digit_char(#[trigger] line@[j]),
        k < line@.len() ==> !is_digit_char(line@[k as int]),
{
    let n = line.unicode_len();
    let mut k: usize = 0;
    while k < n
        invariant
            n == line@.len(),
            k <= n,
            forall|j: int| 0 <= j < k ==> is_digit_char(#[trigger] line@[j]),
        decreases n - k,
    {
        if !is_digit(line.get_char(k)) {
            return k;
        }
        k = k + 1;
    }
    k
}

/// The checked parse: a line that does not match the `<index>,[...]` shape
/// — a non-empty digit index, a comma, a bracketed list — is refused, so
/// the caller can report and skip it; a matching line parses exactly as
/// [`parse_line`] does.
pub fn parse_line_checked(line: &str) -> (res: Option<Vec<String>>)
    ensures
        res is Some <==> spec_line_wf(line@),
        res matches Some(parts) ==> views_of(parts@) == spec_parse_line(line@),
{
    let n = line.unicode_len();
    let k = digit_run(line);
    if k == 0 || k >= n {
        proof {
            assert forall|k2: int| !spec_index_prefix(line@, k2) by {
                if spec_index_prefix(line@, k2) {
                    if k == 0 {
                        assert(is_digit_char(line@[0]));
                    } else {
                        assert(line@[k2] == ',');
                        assert(is_digit_char(line@[k2]));
                    }
                }
            }
        }
        return None;
    }
    proof {
        assert forall|k2: int| spec_index_prefix(line@, k2) implies k2 == k as int by {
            if k2 < k {
                assert(is_digit_char(line@[k2]));
                assert(line@[k2] == ',');
            } else if k2 > k {
                assert(is_digit_char(line@[k as int]));
            }
        }
    }
    if line.get_char(k) != ',' {
        return None;
    }
    if k + 1 >= n {
        return None;
    }
    if line.get_char(k + 1) != '[' {
        return None;
    }
    if line.get_char(n - 1) != ']' {
        return None;
    }
    proof {
        assert(spec_index_prefix(line@, k as int));
    }
    Some(parse_line(line))
}

/// A line the store writes is well-formed: the checked parse accepts every
/// output of [`format_line`], whatever the entries hold.
pub proof fn lemma_format_line_wf(index: nat, es: Seq<Seq<char>>)
    ensures
        spec_line_wf(spec_format_line(index, es)),
{
    let line = spec_format_line(index, es);
    let d = spec_dec(index);
    let k = d.len() as int;
    let inner = join_sep(es.map_values(|t: Seq<char>| spec_quote(t)), seq![',', ' ']);
    assert(d.len() >= 1);
    assert(line =~= d + seq![','] + (seq!['['] + inner + seq![']']));
    assert forall|j: int| 0 <= j < k implies is_digit_char(#[trigger] line[j]) by {
        assert(line[j] == d[j]);
        lemma_dec_digits(index, j);
    }
    assert(line[k] == ',');
    assert(line[k + 1] == '[');
    assert(line[line.len() - 1] == ']');
    assert(spec_index_prefix(line, k));
}

/// An entry the log format can carry faithfully: free of the decoration
/// characters and of the comma separator.
pub open spec fn spec_entry_clean(t: Seq<char>) -> bool {
    forall|i: int| 0 <= i < t.len() ==> !is_stripped_char(#[trigger] t[i]) && t[i] != ','
}

/// A decimal rendering is untouched by stripping and free of commas.
proof fn lemma_dec_clean(n: nat)
    ensures
        strip_chars(spec_dec(n)) =~= spec_dec(n),
        !spec_dec(n).contains(','),
{
    assert forall|i: int| 0 <= i < spec_dec(n).len() implies !is_stripped_char(
        #[trigger] spec_dec(n)[i],
    ) && spec_dec(n)[i] != ',' by {
        lemma_dec_digits(n, i);
    }
    lemma_strip_clean(spec_dec(n));
}

/// Stripping the quoted comma-space join of clean entries leaves the plain
/// comma join of the entries.
proof fn lemma_strip_quoted_join(es: Seq<Seq<char>>)
    requires
        forall|k: int| 0 <= k < es.len() ==> spec_entry_clean(#[trigger] es[k]),
    ensures
        strip_chars(join_sep(es.map_values(|t: Seq<char>| spec_quote(t)), seq![',', ' ']))
            =~= join_sep(es, seq![',']),
    decreases es.len(),
{
    let qs = es.map_values(|t: Seq<char>| spec_quote(t));
    let sep = seq![',', ' '];
    if es.len() == 0 {
        lemma_strip_clean(join_sep(qs, sep));
    } else if es.len() == 1 {
        assert(join_sep(qs, sep) == qs[0]);
        assert(qs[0] == spec_quote(es[0]));
        lemma_strip_append(seq!['"'] + es[0], seq!['"']);
        lemma_strip_append(seq!['"'], es[0]);
        lemma_strip_all(seq!['"']);
        lemma_strip_clean(es[0]);
        assert(spec_quote(es[0]) =~= (seq!['"'] + es[0]) + seq!['"']);
    } else {
        let rest = es.drop_first();
        assert forall|k: int| 0 <= k < rest.len() implies spec_entry_clean(
            #[trigger] rest[k],
        ) by {
            assert(rest[k] == es[k + 1]);
        }
        lemma_strip_quoted_join(rest);
        assert(qs.drop_first() =~= rest.map_values(|t: Seq<char>| spec_quote(t)));
        assert(join_sep(qs, sep) == qs[0] + sep + join_sep(qs.drop_first(), sep));
        lemma_strip_append(qs[0] + sep, join_sep(qs.drop_first(), sep));
        lemma_strip_append(qs[0], sep);
        lemma_strip_append(seq!['"'] + es[0], seq!['"']);
        lemma_strip_append(seq!['"'], es[0]);
        lemma_strip_all(seq!['"']);
        lemma_strip_clean(es[0]);
        assert(qs[0] =~= (seq!['"'] + es[0]) + seq!['"']);
        assert(strip_chars(sep) =~= seq![',']) by {
            assert(sep =~= seq![','] + seq![' ']);
            lemma_strip_append(seq![','], seq![' ']);
            lemma_strip_clean(seq![',']);
            lemma_strip_all(seq![' ']);
        }
        assert(strip_chars(qs[0]) =~= es[0]);
        assert(join_sep(es, seq![',']) == es[0] + seq![','] + join_sep(rest, seq![',']));
    }
}

/// Round trip: a line written by [`format_line`] parses back to exactly the
/// entry list that was written.  The leading index field is dropped by the
/// parser, and the entries must be clean of the decoration characters, as
/// every catalog identifier is.
pub proof fn lemma_line_round_trip(index: nat, es: Seq<Seq<char>>)
    requires
        es.len() >= 1,
        forall|k: int| 0 <= k < es.len() ==> spec_entry_clean(#[trigger] es[k]),
    ensures
        spec_parse_line(spec_format_line(index, es)) =~= es,
{
    let line = spec_format_line(index, es);
    let inner = join_sep(es.map_values(|t: Seq<char>| spec_quote(t)), seq![',', ' ']);
    let flat = join_sep(es, seq![',']);
    assert(line =~= spec_dec(index) + seq![','] + (seq!['['] + inner + seq![']']));
    lemma_strip_append(spec_dec(index) + seq![','] + seq!['['] + inner, seq![']']);
    lemma_strip_append(spec_dec(index) + seq![','] + seq!['['], inner);
    lemma_strip_append(spec_dec(index) + seq![','], seq!['[']);
    lemma_strip_append(spec_dec(index), seq![',']);
    lemma_dec_clean(index);
    lemma_strip_clean(seq![',']);
    lemma_strip_all(seq!['[']);
    lemma_strip_all(seq![']']);
    lemma_strip_quoted_join(es);
    assert(line =~= (((spec_dec(index) + seq![','] + seq!['[']) + inner) + seq![']']));
    assert(strip_chars(line) =~= spec_dec(index) + seq![','] + flat);
    let whole = seq![spec_dec(index)] + es;
    assert(join_sep(whole, seq![',']) =~= spec_dec(index) + seq![','] + flat) by {
        assert(whole[0] == spec_dec(index));
        assert(whole.drop_first() =~= es);
        assert(whole.len() >= 2);
        assert(join_sep(whole, seq![',']) == whole[0] + seq![','] + join_sep(
            whole.drop_first(),
            seq![','],
        ));
    }
    assert forall|k: int| 0 <= k < whole.len() implies !(#[trigger] whole[k]).contains(',') by {
        if k == 0 {
            lemma_dec_clean(index);
        } else {
            assert(whole[k] == es[k - 1]);
            assert(spec_entry_clean(es[k - 1]));
            if whole[k].contains(',') {
                let i = choose|i: int| 0 <= i < whole[k].len() && whole[k][i] == ',';
                assert(es[k - 1][i] == ',');
            }
        }
    }
    lemma_split_join(whole, ',');
    assert(split_on(strip_chars(line), ',') =~= whole);
    assert(whole.drop_first() =~= es);
}

} // verus!
