//! Directory scanning and file-pair planning.
//!
//! The caller lists an input directory and hands the entries over as plain
//! values: a name and whether the entry is a regular file. The scanner keeps
//! exactly the regular files whose extension matches the target extension,
//! in enumeration order, and the planner turns each kept name into the pair
//! of its input path and its computed output path. A name that cannot be
//! paired aborts the whole plan, as a structurally malformed name must not
//! silently vanish from the batch.

use vstd::prelude::*;

use crate::error::ConvertError;
use crate::paths::{ext_matches, extension_matches, file_name_of, has_stem, stem_of,
    to_output_filename};

verus! {

/// One directory entry, as the caller's directory listing reports it.
#[derive(Debug, Clone)]
pub struct DirEntryInfo {
    /// The entry's file name, without any directory part.
    pub name: String,
    /// Whether the entry is a regular file.
    pub is_file: bool,
}

/// One unit of work: an input file and the output path it converts to.
#[derive(Debug, Clone)]
pub struct FilePair {
    pub input_path: String,
    pub output_path: String,
}

/// Whether the scanner keeps an entry: a regular file whose extension
/// matches the target, comparing ASCII letters without regard to case.
pub open spec fn entry_matches(e: DirEntryInfo, target: Seq<char>) -> bool {
    e.is_file && ext_matches(e.name@, target)
}

/// The names the scanner keeps, in enumeration order.
pub open spec fn matching_names(es: Seq<DirEntryInfo>, target: Seq<char>) -> Seq<Seq<char>>
    decreases es.len(),
{
    if es.len() == 0 {
        Seq::empty()
    } else {
        let rest = matching_names(es.drop_last(), target);
        if entry_matches(es.last(), target) {
            rest.push(es.last().name@)
        } else {
            rest
        }
    }
}

/// Unrolls `matching_names` by one pushed entry.
pub proof fn lemma_matching_names_push(es: Seq<DirEntryInfo>, target: Seq<char>, e: DirEntryInfo)
    ensures
        matching_names(es.push(e), target) == if entry_matches(e, target) {
            matching_names(es, target).push(e.name@)
        } else {
            matching_names(es, target)
        },
{
    assert(es.push(e).drop_last() =~= es);
    assert(es.push(e).last() == e);
}

/// A directory path, a separator and a file name.
pub open spec fn joined_path(dir: Seq<char>, name: Seq<char>) -> Seq<char> {
    dir + seq!['/'] + name
}

/// The output path the planner computes for one kept name.
pub open spec fn planned_output(
    input_dir: Seq<char>,
    name: Seq<char>,
    output_dir: Seq<char>,
    output_ext: Seq<char>,
) -> Seq<char> {
    output_dir + seq!['/'] + stem_of(file_name_of(joined_path(input_dir, name))) + seq!['.']
        + output_ext
}

/// Lists the names of the regular files whose extension matches the target.
pub fn matching_files(entries: &Vec<DirEntryInfo>, target_ext: &str) -> (r: Vec<String>)
    ensures
        r@.map_values(|s: String| s@) == matching_names(entries@, target_ext@),
{
    let n = entries.len();
    let mut r: Vec<String> = Vec::new();
    let mut i: usize = 0;
    while i < n
        invariant
            n == entries@.len(),
            i <= n,
            r@.map_values(|s: String| s@) == matching_names(entries@.take(i as int), target_ext@),
        decreases n - i,
    {
        let e = &entries[i];
        if e.is_file && extension_matches(e.name.as_str(), target_ext) {
            r.push(e.name.clone());
        }
        i = i + 1;
        proof {
            assert(entries@.take(i as int) =~= entries@.take(i as int - 1).push(
                entries@[i as int - 1],
            ));
            lemma_matching_names_push(
                entries@.take(i as int - 1),
                target_ext@,
                entries@[i as int - 1],
            );
            assert(r@.map_values(|s: String| s@) =~= matching_names(
                entries@.take(i as int),
                target_ext@,
            ));
        }
    }
    proof {
        assert(entries@.take(n as int) =~= entries@);
    }
    r
}

/// The scanner's filter, as a predicate value on one entry.
pub open spec fn match_pred(target: Seq<char>) -> spec_fn(DirEntryInfo) -> bool {
    |e: DirEntryInfo| entry_matches(e, target)
}

/// The scanner's outcome is decided by the matching entries alone: it keeps
/// one name per matching entry, and entries that do not match — however many
/// and wherever they stand — leave the result unchanged.
pub proof fn lemma_scan_counts_matching(es: Seq<DirEntryInfo>, target: Seq<char>)
    ensures
        matching_names(es, target).len() == es.filter(match_pred(target)).len(),
        matching_names(es, target) == matching_names(es.filter(match_pred(target)), target),
    decreases es.len(),
{
    reveal(Seq::filter);
    let pred = match_pred(target);
    if es.len() > 0 {
        lemma_scan_counts_matching(es.drop_last(), target);
        if pred(es.last()) {
            assert(es.filter(pred) == es.drop_last().filter(pred).push(es.last()));
            lemma_matching_names_push(es.drop_last().filter(pred), target, es.last());
        } else {
            assert(es.filter(pred) == es.drop_last().filter(pred));
        }
    }
}

/// The scanner's count does not depend on the non-matching entries or on
/// enumeration order: two listings whose matching entries agree as a
/// multiset — the same files, however ordered and however diluted — keep
/// the same number of names.
pub proof fn lemma_scan_count_order_independent(
    es1: Seq<DirEntryInfo>,
    es2: Seq<DirEntryInfo>,
    target: Seq<char>,
)
    requires
        es1.filter(match_pred(target)).to_multiset() == es2.filter(match_pred(target)).to_multiset(),
    ensures
        matching_names(es1, target).len() == matching_names(es2, target).len(),
{
    lemma_scan_counts_matching(es1, target);
    lemma_scan_counts_matching(es2, target);
    es1.filter(match_pred(target)).to_multiset_ensures();
    es2.filter(match_pred(target)).to_multiset_ensures();
}

/// One planned pair is sound: its name has a stem, its input path is the
/// joined input path, and its output path is the computed one.
pub open spec fn pair_planned(
    pairs: Seq<FilePair>,
    names: Seq<Seq<char>>,
    input_dir: Seq<char>,
    output_dir: Seq<char>,
    output_ext: Seq<char>,
    k: int,
) -> bool {
    &&& has_stem(joined_path(input_dir, names[k]))
    &&& pairs[k].input_path@ == joined_path(input_dir, names[k])
    &&& pairs[k].output_path@ == planned_output(input_dir, names[k], output_dir, output_ext)
}

/// The planner's loop bookkeeping: each built pair corresponds, in order,
/// to one kept name of the part of the listing read so far.
pub open spec fn pairs_match_plan(
    pairs: Seq<FilePair>,
    names: Seq<Seq<char>>,
    input_dir: Seq<char>,
    output_dir: Seq<char>,
    output_ext: Seq<char>,
) -> bool {
    &&& pairs.len() == names.len()
    &&& forall|k: int|
        0 <= k < pairs.len() ==> #[trigger] pair_planned(
            pairs,
            names,
            input_dir,
            output_dir,
            output_ext,
            k,
        )
}

/// Appending one pair built from one kept name keeps the plan bookkeeping.
pub proof fn lemma_plan_step(
    pairs: Seq<FilePair>,
    names: Seq<Seq<char>>,
    pair: FilePair,
    name: Seq<char>,
    input_dir: Seq<char>,
    output_dir: Seq<char>,
    output_ext: Seq<char>,
)
    requires
        pairs_match_plan(pairs, names, input_dir, output_dir, output_ext),
        has_stem(joined_path(input_dir, name)),
        pair.input_path@ == joined_path(input_dir, name),
        pair.output_path@ == planned_output(input_dir, name, output_dir, output_ext),
    ensures
        pairs_match_plan(pairs.push(pair), names.push(name), input_dir, output_dir, output_ext),
{
    let ps = pairs.push(pair);
    let ns = names.push(name);
    assert forall|k: int| 0 <= k < ps.len() implies #[trigger] pair_planned(
        ps,
        ns,
        input_dir,
        output_dir,
        output_ext,
        k,
    ) by {
        if k < pairs.len() {
            assert(pair_planned(pairs, names, input_dir, output_dir, output_ext, k));
            assert(ps[k] == pairs[k]);
            assert(ns[k] == names[k]);
        } else {
            assert(ps[k] == pair);
            assert(ns[k] == name);
        }
    }
}

/// Builds the list of file pairs for one job: every kept input name joined
/// to the input directory, each with its computed output path. Fails exactly
/// when some kept name yields a path without a stem.
pub fn plan_pairs(
    input_dir: &str,
    entries: &Vec<DirEntryInfo>,
    input_ext: &str,
    output_dir: &str,
    output_ext: &str,
) -> (r: Result<Vec<FilePair>, ConvertError>)
    ensures
        ({
            let names = matching_names(entries@, input_ext@);
            &&& (r is Ok <==> (forall|k: int|
                0 <= k < names.len() ==> has_stem(#[trigger] joined_path(input_dir@, names[k]))))
            &&& (r matches Ok(v) ==> {
                &&& v@.len() == names.len()
                &&& forall|k: int|
                    0 <= k < names.len() ==> (#[trigger] v@[k]).input_path@ == joined_path(
                        input_dir@,
                        names[k],
                    ) && v@[k].output_path@ == planned_output(
                        input_dir@,
                        names[k],
                        output_dir@,
                        output_ext@,
                    )
            })
            &&& (r matches Err(e) ==> e == ConvertError::NoStemError && exists|k: int|
                0 <= k < names.len() && !has_stem(#[trigger] joined_path(input_dir@, names[k])))
        }),
{
    let n = entries.len();
    let mut pairs: Vec<FilePair> = Vec::new();
    let mut i: usize = 0;
    while i < n
        invariant
            n == entries@.len(),
            i <= n,
            pairs_match_plan(
                pairs@,
                matching_names(entries@.take(i as int), input_ext@),
                input_dir@,
                output_dir@,
                output_ext@,
            ),
        decreases n - i,
    {
        let ghost prev_names = matching_names(entries@.take(i as int), input_ext@);
        let ghost prev_pairs = pairs@;
        let e = &entries[i];
        let matched = e.is_file && extension_matches(e.name.as_str(), input_ext);
        proof {
            assert(entries@.take(i as int + 1) =~= entries@.take(i as int).push(
                entries@[i as int],
            ));
            lemma_matching_names_push(entries@.take(i as int), input_ext@, entries@[i as int]);
        }
        if matched {
            let mut input_path = input_dir.to_owned();
            input_path.append("/");
            input_path.append(e.name.as_str());
            proof {
                reveal_strlit("/");
                assert(("/")@ =~= seq!['/']);
                assert(input_path@ == joined_path(input_dir@, e.name@));
            }
            let output_path = match to_output_filename(input_path.as_str(), output_dir, output_ext)
                {
                Ok(p) => p,
                Err(_) => {
                    proof {
                        let names = matching_names(entries@, input_ext@);
                        let k = prev_names.len() as int;
                        lemma_matching_prefix_stable(
                            entries@,
                            input_ext@,
                            i as int + 1,
                            prev_names.len() as int + 1,
                        );
                        assert(entries@.take(n as int) =~= entries@);
                        assert(matching_names(entries@.take(n as int), input_ext@)[k]
                            == matching_names(entries@.take(i as int + 1), input_ext@)[k]);
                        assert(names[k] == e.name@);
                        assert(k < names.len());
                        assert(!has_stem(joined_path(input_dir@, names[k])));
                    }
                    return Err(ConvertError::NoStemError);
                },
            };
            pairs.push(
                FilePair {
                    input_path,
                    output_path,
                },
            );
        }
        i = i + 1;
        proof {
            if matched {
                lemma_plan_step(
                    prev_pairs,
                    prev_names,
                    pairs@.last(),
                    entries@[i as int - 1].name@,
                    input_dir@,
                    output_dir@,
                    output_ext@,
                );
                assert(pairs@ =~= prev_pairs.push(pairs@.last()));
                assert(matching_names(entries@.take(i as int), input_ext@) == prev_names.push(
                    entries@[i as int - 1].name@,
                ));
            }
        }
    }
    proof {
        assert(entries@.take(n as int) =~= entries@);
        let names = matching_names(entries@, input_ext@);
        assert(pairs@.len() == names.len());
        assert forall|k: int| 0 <= k < names.len() implies has_stem(
            #[trigger] joined_path(input_dir@, names[k]),
        ) by {
            assert(pair_planned(pairs@, names, input_dir@, output_dir@, output_ext@, k));
        }
        assert forall|k: int|
            0 <= k < names.len() implies (#[trigger] pairs@[k]).input_path@ == joined_path(
            input_dir@,
            names[k],
        ) && pairs@[k].output_path@ == planned_output(
            input_dir@,
            names[k],
            output_dir@,
            output_ext@,
        ) by {
            assert(pair_planned(pairs@, names, input_dir@, output_dir@, output_ext@, k));
        }
    }
    Ok(pairs)
}

/// The first names the scanner keeps do not change as the listing grows:
/// any prefix of the listing that already yields `cnt` kept names pins the
/// first `cnt` kept names of every longer prefix.
pub proof fn lemma_matching_prefix_stable(
    es: Seq<DirEntryInfo>,
    target: Seq<char>,
    i: int,
    cnt: int,
)
    requires
        0 <= i <= es.len(),
        cnt <= matching_names(es.take(i), target).len(),
    ensures
        forall|m: int|
            i <= m <= es.len() ==> cnt <= #[trigger] matching_names(es.take(m), target).len(),
        forall|k: int, m: int|
            0 <= k < cnt && i <= m <= es.len() ==> #[trigger] matching_names(es.take(m), target)[k]
                == matching_names(es.take(i), target)[k],
    decreases es.len() - i,
{
    if i < es.len() {
        assert(es.take(i + 1) =~= es.take(i).push(es[i]));
        lemma_matching_names_push(es.take(i), target, es[i]);
        lemma_matching_prefix_stable(es, target, i + 1, cnt);
    }
}

} // verus!
