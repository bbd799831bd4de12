//! Job configuration, progress and failure reporting.
//!
//! The pipeline runs two fixed jobs under one root directory: graphics
//! (`GRAFIK` to `GRAFIK_PNG`, converting `PCX` files to `PNG`) and then text
//! (`TEXT` to `TEXT_TXT`, converting `TCT` files to `TXT`). The jobs run in
//! that order, and a fatal job failure — a directory that cannot be scanned
//! or a name that cannot be paired — aborts the run before any later job.
//! Per-file conversion failures are absorbed: they become report lines and
//! never escalate, so a job that scanned and paired its files always
//! reports overall success.

use vstd::prelude::*;

use crate::error::{error_text, ConvertError};
use crate::scan::FilePair;

verus! {

/// Which converter a job applies to each file.
#[derive(Debug, Clone, Copy, PartialEq, Eq, Structural)]
pub enum JobKind {
    /// Paletted images to indexed image containers.
    Graphics,
    /// Proprietary codepage text to byte-order-marked text.
    Text,
}

/// One asset category's scan-and-convert task, immutable once constructed.
#[derive(Debug, Clone)]
pub struct ConversionJob {
    /// Directory scanned for input files.
    pub input_dir: String,
    /// Extension of the input files, matched without regard to ASCII case.
    pub input_ext: String,
    /// Directory the converted files are written to.
    pub output_dir: String,
    /// Extension of the output files.
    pub output_ext: String,
    /// The converter to apply.
    pub kind: JobKind,
}

/// The graphics job under the given root directory.
pub fn graphics_job(root: &str) -> (j: ConversionJob)
    ensures
        j.input_dir@ == root@ + ("/GRAFIK")@,
        j.input_ext@ == ("PCX")@,
        j.output_dir@ == root@ + ("/GRAFIK_PNG")@,
        j.output_ext@ == ("PNG")@,
        j.kind == JobKind::Graphics,
{
    let mut input_dir = root.to_owned();
    input_dir.append("/GRAFIK");
    let mut output_dir = root.to_owned();
    output_dir.append("/GRAFIK_PNG");
    ConversionJob {
        input_dir,
        input_ext: "PCX".to_owned(),
        output_dir,
        output_ext: "PNG".to_owned(),
        kind: JobKind::Graphics,
    }
}

/// The text job under the given root directory.
pub fn text_job(root: &str) -> (j: ConversionJob)
    ensures
        j.input_dir@ == root@ + ("/TEXT")@,
        j.input_ext@ == ("TCT")@,
        j.output_dir@ == root@ + ("/TEXT_TXT")@,
        j.output_ext@ == ("TXT")@,
        j.kind == JobKind::Text,
{
    let mut input_dir = root.to_owned();
    input_dir.append("/TEXT");
    let mut output_dir = root.to_owned();
    output_dir.append("/TEXT_TXT");
    ConversionJob {
        input_dir,
        input_ext: "TCT".to_owned(),
        output_dir,
        output_ext: "TXT".to_owned(),
        kind: JobKind::Text,
    }
}

/// The fixed run order: graphics first, then text. The caller runs them
/// strictly in sequence and stops at the first job that fails fatally, so a
/// missing graphics directory also keeps the text job from starting.
pub fn job_sequence(root: &str) -> (v: Vec<ConversionJob>)
    ensures
        v@.len() == 2,
        v@[0].kind == JobKind::Graphics,
        v@[0].input_dir@ == root@ + ("/GRAFIK")@,
        v@[0].input_ext@ == ("PCX")@,
        v@[0].output_dir@ == root@ + ("/GRAFIK_PNG")@,
        v@[0].output_ext@ == ("PNG")@,
        v@[1].kind == JobKind::Text,
        v@[1].input_dir@ == root@ + ("/TEXT")@,
        v@[1].input_ext@ == ("TCT")@,
        v@[1].output_dir@ == root@ + ("/TEXT_TXT")@,
        v@[1].output_ext@ == ("TXT")@,
{
    let mut v: Vec<ConversionJob> = Vec::new();
    v.push(graphics_job(root));
    v.push(text_job(root));
    v
}

/// The progress line announced before one file is converted.
pub open spec fn progress_text(p: FilePair) -> Seq<char> {
    ("Converting '")@ + p.input_path@ + ("' to '")@ + p.output_path@ + ("' ...")@
}

/// Builds the progress line announced before one file is converted.
pub fn progress_message(p: &FilePair) -> (s: String)
    ensures
        s@ == progress_text(*p),
{
    let mut s = "Converting '".to_owned();
    s.append(p.input_path.as_str());
    s.append("' to '");
    s.append(p.output_path.as_str());
    s.append("' ...");
    s
}

/// The report line for one file whose conversion failed.
pub open spec fn failure_text(p: FilePair, e: ConvertError) -> Seq<char> {
    ("Unable to convert '")@ + p.input_path@ + ("' to '")@ + p.output_path@ + ("': ")@
        + error_text(e)
}

/// Builds the report line for one file whose conversion failed.
pub fn failure_message(p: &FilePair, e: &ConvertError) -> (s: String)
    ensures
        s@ == failure_text(*p, *e),
{
    let mut s = "Unable to convert '".to_owned();
    s.append(p.input_path.as_str());
    s.append("' to '");
    s.append(p.output_path.as_str());
    s.append("': ");
    let m = e.message();
    s.append(m.as_str());
    s
}

/// How many files of the batch converted successfully.
pub open spec fn ok_count(os: Seq<(FilePair, Result<(), ConvertError>)>) -> int
    decreases os.len(),
{
    if os.len() == 0 {
        0int
    } else {
        ok_count(os.drop_last()) + if os.last().1 is Ok {
            1int
        } else {
            0int
        }
    }
}

/// The report lines of the batch: one per failed file, in batch order.
pub open spec fn failure_lines(os: Seq<(FilePair, Result<(), ConvertError>)>) -> Seq<Seq<char>>
    decreases os.len(),
{
    if os.len() == 0 {
        Seq::empty()
    } else {
        let rest = failure_lines(os.drop_last());
        match os.last().1 {
            Ok(_) => rest,
            Err(e) => rest.push(failure_text(os.last().0, e)),
        }
    }
}

/// What one finished job reports: how many files converted and one line per
/// failure. There is no error side: per-file failures are reported, never
/// escalated, so the job as a whole still counts as a success.
#[derive(Debug)]
pub struct JobSummary {
    /// Number of files that converted successfully.
    pub converted: usize,
    /// One report line per file that failed.
    pub failures: Vec<String>,
}

/// Folds the collected per-file outcomes of one job into its summary:
/// every successful file is counted, every failed file yields exactly one
/// report line naming its paths and its failure, and nothing escalates.
pub fn summarize_outcomes(outcomes: &Vec<(FilePair, Result<(), ConvertError>)>) -> (s: JobSummary)
    ensures
        s.converted == ok_count(outcomes@),
        s.failures@.map_values(|t: String| t@) == failure_lines(outcomes@),
        s.converted + s.failures@.len() == outcomes@.len(),
{
    let n = outcomes.len();
    let mut converted: usize = 0;
    let mut failures: Vec<String> = Vec::new();
    let mut i: usize = 0;
    while i < n
        invariant
            n == outcomes@.len(),
            i <= n,
            converted == ok_count(outcomes@.take(i as int)),
            failures@.map_values(|t: String| t@) == failure_lines(outcomes@.take(i as int)),
            converted + failures@.len() == i,
        decreases n - i,
    {
        let pair_outcome = &outcomes[i];
        match &pair_outcome.1 {
            Ok(_) => {
                converted = converted + 1;
            },
            Err(e) => {
                failures.push(failure_message(&pair_outcome.0, e));
            },
        }
        i = i + 1;
        proof {
            assert(outcomes@.take(i as int).drop_last() =~= outcomes@.take(i as int - 1));
            assert(outcomes@.take(i as int).last() == outcomes@[i as int - 1]);
            assert(failures@.map_values(|t: String| t@) =~= failure_lines(
                outcomes@.take(i as int),
            ));
        }
    }
    proof {
        assert(outcomes@.take(n as int) =~= outcomes@);
    }
    JobSummary { converted, failures }
}

} // verus!
