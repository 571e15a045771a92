//! The emotion-expansion pipeline's pure logic: dropping the Face-marked
//! entries of a parsed manifest, the resume-index skip rule, and expanding a
//! retained manifest into the ten emotion variants inserted after its
//! Clothes entry.

use vstd::prelude::*;
use vstd::string::*;

use crate::strutil::{spec_dec, spec_has_substring, str_contains, usize_to_string, views_of};

verus! {

/// The entries kept by the Face filter: those whose identifier does not
/// contain the Face category marker (this removes both Face and FaceAcc
/// layers).
pub open spec fn spec_strip_face(es: Seq<Seq<char>>) -> Seq<Seq<char>> {
    es.filter(|t: Seq<char>| !spec_has_substring(t, "Face"@))
}

/// Drops every entry whose identifier contains the Face marker.
pub fn strip_face(parts: &Vec<String>) -> (out: Vec<String>)
    ensures
        views_of(out@) == spec_strip_face(views_of(parts@)),
{
    let n = parts.len();
    let ghost es = views_of(parts@);
    let ghost pred = |t: Seq<char>| !spec_has_substring(t, "Face"@);
    let mut out: Vec<String> = Vec::new();
    let mut i: usize = 0;
    proof {
        reveal_with_fuel(Seq::<_>::filter, 3);
        assert(es.take(0) =~= Seq::<Seq<char>>::empty());
        assert(views_of(out@) =~= es.take(0).filter(pred));
    }
    while i < n
        invariant
            n == parts@.len(),
            i <= n,
            es == views_of(parts@),
            pred == (|t: Seq<char>| !spec_has_substring(t, "Face"@)),
            views_of(out@) =~= es.take(i as int).filter(pred),
        decreases n - i,
    {
        let ghost old_out = out@;
        let keep = !str_contains(parts[i].as_str(), "Face");
        if keep {
            out.push(parts[i].clone());
        }
        proof {
            reveal_with_fuel(Seq::<_>::filter, 3);
            assert(es[i as int] == parts@[i as int]@);
            assert(pred(es[i as int]) == keep);
            assert(es.take(i + 1) =~= es.take(i as int) + seq![es[i as int]]);
            Seq::<Seq<char>>::filter_distributes_over_add(es.take(i as int), seq![es[i as int]], pred);
            assert(seq![es[i as int]].drop_last() =~= Seq::<Seq<char>>::empty());
            if keep {
                assert(seq![es[i as int]].filter(pred) =~= seq![es[i as int]]);
                assert(views_of(out@) =~= views_of(old_out).push(es[i as int]));
            } else {
                assert(seq![es[i as int]].filter(pred) =~= Seq::<Seq<char>>::empty());
            }
        }
        i = i + 1;
    }
    proof {
        assert(es.take(n as int) =~= es);
    }
    out
}

/// The resume rule of the emotion pipeline, exactly as the batch applies
/// it: the manifest at zero-based position `index` is expanded only when
/// `index` exceeds the caller's resume index, so the first position after
/// the resume index is also skipped.
pub fn should_expand(index: usize, from_index: usize) -> (r: bool)
    ensures
        r == (index > from_index),
{
    index > from_index
}

/// The ten emotion layer identifiers, numbered one to ten.
pub open spec fn spec_emotion(i: nat) -> Seq<char> {
    "NFT_Emo_"@ + spec_dec(i)
}

/// The emotion identifier of one number.
pub fn emotion_name(i: usize) -> (r: String)
    ensures
        r@ == spec_emotion(i as nat),
{
    let mut r = String::from_str("NFT_Emo_");
    let digits = usize_to_string(i);
    r.append(digits.as_str());
    r
}

/// The ten emotion identifiers are pairwise distinct.
pub proof fn lemma_emotion_names_distinct(a: nat, b: nat)
    requires
        1 <= a <= 10,
        1 <= b <= 10,
        a != b,
    ensures
        spec_emotion(a) != spec_emotion(b),
{
    reveal_strlit("NFT_Emo_");
    reveal_with_fuel(spec_dec, 3);
    assert("NFT_Emo_"@.len() == 8);
    if a < 10 && b < 10 {
        assert(spec_dec(a) == seq![crate::strutil::spec_digit(a as int)]);
        assert(spec_dec(b) == seq![crate::strutil::spec_digit(b as int)]);
        assert(crate::strutil::spec_digit(a as int) != crate::strutil::spec_digit(b as int));
        assert(spec_emotion(a)[8] == crate::strutil::spec_digit(a as int));
        assert(spec_emotion(b)[8] == crate::strutil::spec_digit(b as int));
    } else if a == 10 {
        assert(spec_dec(10nat) =~= seq!['1', '0']);
        assert(spec_emotion(a).len() == 10);
        assert(spec_emotion(b).len() == 9);
    } else {
        assert(spec_dec(10nat) =~= seq!['1', '0']);
        assert(spec_emotion(b).len() == 10);
        assert(spec_emotion(a).len() == 9);
    }
}

/// The position of the first entry containing `pat`, or a negative value
/// when no entry contains it.
pub open spec fn spec_first_with(es: Seq<Seq<char>>, pat: Seq<char>) -> int
    decreases es.len(),
{
    if es.len() == 0 {
        -1
    } else if spec_has_substring(es[0], pat) {
        0
    } else {
        let r = spec_first_with(es.drop_first(), pat);
        if r < 0 {
            -1
        } else {
            r + 1
        }
    }
}

pub(crate) proof fn lemma_first_with_found(es: Seq<Seq<char>>, pat: Seq<char>, i: int)
    requires
        0 <= i < es.len(),
        spec_has_substring(es[i], pat),
        forall|j: int| 0 <= j < i ==> !spec_has_substring(#[trigger] es[j], pat),
    ensures
        spec_first_with(es, pat) == i,
    decreases es.len(),
{
    if i == 0 {
    } else {
        assert forall|j: int| 0 <= j < i - 1 implies !spec_has_substring(
            #[trigger] es.drop_first()[j],
            pat,
        ) by {
            assert(es.drop_first()[j] == es[j + 1]);
        }
        assert(es.drop_first()[i - 1] == es[i]);
        lemma_first_with_found(es.drop_first(), pat, i - 1);
    }
}

proof fn lemma_first_with_none(es: Seq<Seq<char>>, pat: Seq<char>)
    requires
        forall|j: int| 0 <= j < es.len() ==> !spec_has_substring(#[trigger] es[j], pat),
    ensures
        spec_first_with(es, pat) < 0,
    decreases es.len(),
{
    if es.len() > 0 {
        assert forall|j: int| 0 <= j < es.drop_first().len() implies !spec_has_substring(
            #[trigger] es.drop_first()[j],
            pat,
        ) by {
            assert(es.drop_first()[j] == es[j + 1]);
        }
        lemma_first_with_none(es.drop_first(), pat);
    }
}

/// Finds the zero-based position of the first entry containing the Clothes
/// marker, as [`spec_first_with`] describes.
pub fn find_clothes(parts: &Vec<String>) -> (res: Option<usize>)
    ensures
        res matches Some(k) ==> spec_first_with(views_of(parts@), "Clothes"@) == k as int
            && k < parts@.len(),
        res is None ==> spec_first_with(views_of(parts@), "Clothes"@) < 0,
{
    let ghost es = views_of(parts@);
    let n = parts.len();
    let mut i: usize = 0;
    while i < n
        invariant
            n == parts@.len(),
            es == views_of(parts@),
            i <= n,
            forall|j: int| 0 <= j < i ==> !spec_has_substring(#[trigger] es[j], "Clothes"@),
        decreases n - i,
    {
        if str_contains(parts[i].as_str(), "Clothes") {
            proof {
                lemma_first_with_found(es, "Clothes"@, i as int);
            }
            return Some(i);
        }
        i = i + 1;
    }
    proof {
        lemma_first_with_none(es, "Clothes"@);
    }
    None
}

fn clone_entries(parts: &Vec<String>) -> (out: Vec<String>)
    ensures
        out@ == parts@,
{
    let n = parts.len();
    let mut out: Vec<String> = Vec::new();
    let mut i: usize = 0;
    while i < n
        invariant
            n == parts@.len(),
            i <= n,
            out@ =~= parts@.take(i as int),
        decreases n - i,
    {
        out.push(parts[i].clone());
        proof {
            assert(parts@.take(i + 1) =~= parts@.take(i as int).push(parts@[i as int]));
        }
        i = i + 1;
    }
    proof {
        assert(parts@.take(n as int) =~= parts@);
    }
    out
}

/// Expands one retained manifest into its emotion variants: where a Clothes
/// entry stands at position `k`, the result holds exactly ten manifests,
/// each identical to the input except for one emotion identifier inserted
/// at position `k + 1`, the ten identifiers pairwise distinct; a manifest
/// without a Clothes entry yields nothing.
pub fn expand_emotions(parts: &Vec<String>) -> (out: Vec<Vec<String>>)
    ensures
        ({
            let es = views_of(parts@);
            let k = spec_first_with(es, "Clothes"@);
            &&& k < 0 ==> out@.len() == 0
            &&& k >= 0 ==> {
                &&& out@.len() == 10
                &&& forall|j: int|
                    0 <= j < 10 ==> views_of(#[trigger] out@[j]@) == es.insert(
                        k + 1,
                        spec_emotion((j + 1) as nat),
                    )
            }
        }),
{
    let ghost es = views_of(parts@);
    let mut out: Vec<Vec<String>> = Vec::new();
    match find_clothes(parts) {
        None => out,
        Some(k) => {
            let n = parts.len();
            let mut e: usize = 1;
            while e <= 10
                invariant
                    1 <= e <= 11,
                    n == parts@.len(),
                    k < n,
                    parts@.len() == es.len(),
                    es == views_of(parts@),
                    0 <= k < es.len(),
                    k as int == spec_first_with(es, "Clothes"@),
                    out@.len() == e - 1,
                    forall|j: int|
                        0 <= j < e - 1 ==> views_of(#[trigger] out@[j]@) == es.insert(
                            k + 1,
                            spec_emotion((j + 1) as nat),
                        ),
                decreases 11 - e,
            {
                let mut one = clone_entries(parts);
                let name = emotion_name(e);
                one.insert(k + 1, name);
                proof {
                    assert(views_of(one@) =~= es.insert(k + 1, spec_emotion(e as nat)));
                }
                out.push(one);
                e = e + 1;
            }
            out
        },
    }
}

} // verus!
