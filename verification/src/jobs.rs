//! Compositing-job naming and batch outcome aggregation.  Path joining and
//! the external compositor itself stay outside the library; what is here is
//! the naming convention of every file a job touches and the report a batch
//! hands back to its caller.

use vstd::prelude::*;
use vstd::string::*;

use crate::strutil::{push_char, spec_dec, usize_to_string, views_of};

verus! {

/// The bound on simultaneously in-flight compositing invocations.
pub const CONCURRENCY_BOUND: usize = 1000;

/// The asset file name of a layer variant: `<variant>.png`.
pub fn layer_file_name(variant: &str) -> (r: String)
    ensures
        r@ == variant@ + ".png"@,
{
    let mut r = String::from_str(variant);
    r.append(".png");
    r
}

/// The asset file names of a manifest's layers, in layer order.
pub fn layer_file_names(parts: &Vec<String>) -> (out: Vec<String>)
    ensures
        views_of(out@) == views_of(parts@).map_values(|t: Seq<char>| t + ".png"@),
{
    let n = parts.len();
    let ghost mapped = views_of(parts@).map_values(|t: Seq<char>| t + ".png"@);
    let mut out: Vec<String> = Vec::new();
    let mut i: usize = 0;
    while i < n
        invariant
            n == parts@.len(),
            i <= n,
            mapped == views_of(parts@).map_values(|t: Seq<char>| t + ".png"@),
            views_of(out@) =~= mapped.take(i as int),
        decreases n - i,
    {
        let ghost old_out = out@;
        out.push(layer_file_name(parts[i].as_str()));
        proof {
            assert(views_of(out@) =~= views_of(old_out).push(parts@[i as int]@ + ".png"@));
            assert(mapped.take(i + 1) =~= mapped.take(i as int).push(mapped[i as int]));
        }
        i = i + 1;
    }
    proof {
        assert(mapped.take(n as int) =~= mapped);
    }
    out
}

/// The output file name of a direct compositing job: `<index>.png`.
pub fn output_name(index: usize) -> (r: String)
    ensures
        r@ == spec_dec(index as nat) + ".png"@,
{
    let mut r = usize_to_string(index);
    r.append(".png");
    r
}

/// The output file name of an emotion job: `<index>_<emotion>.png`, placed
/// by the caller under the per-index subdirectory.
pub fn emotion_output_name(index: usize, emotion: &str) -> (r: String)
    ensures
        r@ == spec_dec(index as nat) + seq!['_'] + emotion@ + ".png"@,
{
    let mut r = usize_to_string(index);
    push_char(&mut r, '_');
    r.append(emotion);
    r.append(".png");
    r
}

/// The job indices of the failed outcomes, in submission order.
pub open spec fn spec_failed_indices(os: Seq<(usize, bool)>) -> Seq<usize> {
    os.filter(|o: (usize, bool)| !o.1).map_values(|o: (usize, bool)| o.0)
}

/// What a batch of compositing jobs reports back: how many jobs succeeded,
/// and which indices failed, without aborting the siblings of a failed job.
pub struct BatchReport {
    pub succeeded: usize,
    pub failed: Vec<usize>,
}

impl BatchReport {
    /// Aggregates per-job outcomes, one `(index, success)` pair per job.
    pub fn from_outcomes(outcomes: &Vec<(usize, bool)>) -> (r: BatchReport)
        ensures
            r.failed@ == spec_failed_indices(outcomes@),
            r.succeeded + r.failed@.len() == outcomes@.len(),
    {
        let n = outcomes.len();
        let ghost pred = |o: (usize, bool)| !o.1;
        let mut succeeded: usize = 0;
        let mut failed: Vec<usize> = Vec::new();
        let mut i: usize = 0;
        proof {
            reveal_with_fuel(Seq::<_>::filter, 3);
            assert(outcomes@.take(0) =~= Seq::<(usize, bool)>::empty());
            assert(failed@ =~= spec_failed_indices(outcomes@.take(0)));
        }
        while i < n
            invariant
                n == outcomes@.len(),
                i <= n,
                pred == (|o: (usize, bool)| !o.1),
                failed@ =~= spec_failed_indices(outcomes@.take(i as int)),
                succeeded + failed@.len() == i,
            decreases n - i,
        {
            let ghost old_failed = failed@;
            let ghost prefix = outcomes@.take(i as int);
            let ghost o = outcomes@[i as int];
            let (index, ok) = outcomes[i];
            if ok {
                succeeded = succeeded + 1;
            } else {
                failed.push(index);
            }
            proof {
                reveal_with_fuel(Seq::<_>::filter, 3);
                assert(outcomes@.take(i + 1) =~= prefix + seq![o]);
                Seq::<(usize, bool)>::filter_distributes_over_add(prefix, seq![o], pred);
                assert(seq![o].drop_last() =~= Seq::<(usize, bool)>::empty());
                if ok {
                    assert(seq![o].filter(pred) =~= Seq::<(usize, bool)>::empty());
                    assert(spec_failed_indices(outcomes@.take(i + 1)) =~= spec_failed_indices(
                        prefix,
                    ));
                } else {
                    assert(seq![o].filter(pred) =~= seq![o]);
                    assert(prefix.filter(pred).push(o).map_values(|p: (usize, bool)| p.0)
                        =~= spec_failed_indices(prefix).push(o.0));
                    assert(prefix.filter(pred) + seq![o] =~= prefix.filter(pred).push(o));
                    assert(failed@ =~= old_failed.push(o.0));
                }
            }
            i = i + 1;
        }
        proof {
            assert(outcomes@.take(n as int) =~= outcomes@);
        }
        BatchReport { succeeded, failed }
    }
}

} // verus!
