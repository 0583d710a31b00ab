//! The enrichment snapshot: what the threat-intelligence service said of a
//! sample, reduced to a verdict and lists of related entities.
use crate::responses::{VTData, VTRelationResponse, VTResponse, VTStats};
use vstd::prelude::*;

verus! {

/// The analysis categories, named as the persisted document names them.
#[allow(non_camel_case_types)]
#[derive(Debug, Clone, Copy, PartialEq, Eq, Structural)]
pub enum AnalysisVerdict {
    UNDECTED,
    HARMLESS,
    SUSPICIOUS,
    MALICIOUS,
}

/// The dominant category of a last analysis and the share of engines behind
/// it: the confidence is `hits / total`.
#[derive(Debug, Clone, Copy, PartialEq, Eq, Structural)]
pub struct Analysis {
    pub verdict: AnalysisVerdict,
    pub hits: u64,
    pub total: u128,
}

/// A count that may be missing; a missing one counts as zero.
pub open spec fn count(c: Option<u64>) -> nat {
    match c {
        Some(v) => v as nat,
        None => 0,
    }
}

/// The place of a category in the order in which ties are broken.
pub open spec fn rank(v: AnalysisVerdict) -> int {
    match v {
        AnalysisVerdict::HARMLESS => 0,
        AnalysisVerdict::MALICIOUS => 1,
        AnalysisVerdict::SUSPICIOUS => 2,
        AnalysisVerdict::UNDECTED => 3,
    }
}

/// The count that a category has in the statistics.
pub open spec fn category_count(s: VTStats, v: AnalysisVerdict) -> nat {
    match v {
        AnalysisVerdict::HARMLESS => count(s.harmless),
        AnalysisVerdict::MALICIOUS => count(s.malicious),
        AnalysisVerdict::SUSPICIOUS => count(s.suspicious),
        AnalysisVerdict::UNDECTED => count(s.undetected),
    }
}

/// The sum of the counts that are present.
pub open spec fn stats_total(s: VTStats) -> nat {
    count(s.harmless) + count(s.malicious) + count(s.suspicious) + count(s.undetected)
}

/// The largest count.
pub open spec fn stats_top(s: VTStats) -> nat {
    let a = if count(s.harmless) >= count(s.malicious) {
        count(s.harmless)
    } else {
        count(s.malicious)
    };
    let b = if count(s.suspicious) >= count(s.undetected) {
        count(s.suspicious)
    } else {
        count(s.undetected)
    };
    if a >= b {
        a
    } else {
        b
    }
}

/// The first category, in the order harmless, malicious, suspicious,
/// undetected, whose count is the largest.
pub open spec fn stats_leader(s: VTStats) -> AnalysisVerdict {
    if count(s.harmless) == stats_top(s) {
        AnalysisVerdict::HARMLESS
    } else if count(s.malicious) == stats_top(s) {
        AnalysisVerdict::MALICIOUS
    } else if count(s.suspicious) == stats_top(s) {
        AnalysisVerdict::SUSPICIOUS
    } else {
        AnalysisVerdict::UNDECTED
    }
}

/// The analysis that statistics give; none where no engine is counted, as the
/// confidence would then be undefined.
pub open spec fn analysis_of(s: VTStats) -> Option<Analysis> {
    if stats_total(s) > 0 {
        Some(
            Analysis {
                verdict: stats_leader(s),
                hits: stats_top(s) as u64,
                total: stats_total(s) as u128,
            },
        )
    } else {
        None
    }
}

/// Folds one category into the running sum, the running maximum and the
/// category that holds it; only a strict increase changes the category.
fn step(
    stat: Option<u64>,
    verdict_value: AnalysisVerdict,
    total: &mut u128,
    max_value: &mut u64,
    verdict: &mut AnalysisVerdict,
)
    requires
        *old(total) + count(stat) <= u128::MAX,
    ensures
        *final(total) == *old(total) + count(stat),
        count(stat) > *old(max_value) ==> *final(max_value) == count(stat) && *final(verdict)
            == verdict_value,
        count(stat) <= *old(max_value) ==> *final(max_value) == *old(max_value) && *final(verdict)
            == *old(verdict),
{
    if let Some(value) = stat {
        *total = *total + value as u128;
        if value > *max_value {
            *max_value = value;
            *verdict = verdict_value;
        }
    }
}

impl Analysis {
    /// The verdict of a last analysis: the category with the most engines,
    /// the earliest in the order harmless, malicious, suspicious, undetected
    /// on a tie, with its count and the sum of all counts.
    pub fn from_stats(stats: &VTStats) -> (r: Option<Analysis>)
        ensures
            r == analysis_of(*stats),
    {
        let mut total: u128 = 0;
        let mut max_value: u64 = 0;
        let mut verdict = AnalysisVerdict::UNDECTED;
        step(stats.harmless, AnalysisVerdict::HARMLESS, &mut total, &mut max_value, &mut verdict);
        step(stats.malicious, AnalysisVerdict::MALICIOUS, &mut total, &mut max_value, &mut verdict);
        step(
            stats.suspicious,
            AnalysisVerdict::SUSPICIOUS,
            &mut total,
            &mut max_value,
            &mut verdict,
        );
        step(
            stats.undetected,
            AnalysisVerdict::UNDECTED,
            &mut total,
            &mut max_value,
            &mut verdict,
        );
        if total == 0 {
            None
        } else {
            Some(Analysis { verdict, hits: max_value, total })
        }
    }
}

/// Wherever engines were counted, the confidence lies between zero and one,
/// and the verdict is the first category, in the order harmless, malicious,
/// suspicious, undetected, to reach the largest count: every earlier category
/// has fewer engines, and none has more.
pub proof fn lemma_verdict_law(s: VTStats)
    requires
        stats_total(s) > 0,
    ensures
        analysis_of(s) is Some,
        analysis_of(s)->Some_0.hits <= analysis_of(s)->Some_0.total,
        analysis_of(s)->Some_0.total == stats_total(s),
        analysis_of(s)->Some_0.hits > 0,
        category_count(s, analysis_of(s)->Some_0.verdict) == analysis_of(s)->Some_0.hits,
        forall|v: AnalysisVerdict| #[trigger]
            category_count(s, v) <= analysis_of(s)->Some_0.hits,
        forall|v: AnalysisVerdict|
            rank(v) < rank(analysis_of(s)->Some_0.verdict) ==> #[trigger] category_count(s, v)
                < analysis_of(s)->Some_0.hits,
{
}

/// The identifiers of the entities that have one, in order.
pub open spec fn ids_of(entries: Seq<VTData>) -> Seq<String>
    decreases entries.len(),
{
    if entries.len() == 0 {
        Seq::empty()
    } else {
        let last = entries.last();
        let rest = ids_of(entries.drop_last());
        match last.id {
            Some(id) => rest.push(id),
            None => rest,
        }
    }
}

/// The first of an entity's names, where it has one.
pub open spec fn first_name(e: VTData) -> Option<String> {
    match e.attributes {
        Some(a) => match a.names {
            Some(names) => if names@.len() > 0 {
                Some(names@[0])
            } else {
                None
            },
            None => None,
        },
        None => None,
    }
}

/// How a dropped file is listed: by its first name, else by its identifier.
pub open spec fn dropped_label(e: VTData) -> Option<String> {
    if first_name(e) is Some {
        first_name(e)
    } else {
        e.id
    }
}

/// The labels of the dropped files that have one, in order.
pub open spec fn dropped_labels(entries: Seq<VTData>) -> Seq<String>
    decreases entries.len(),
{
    if entries.len() == 0 {
        Seq::empty()
    } else {
        let rest = dropped_labels(entries.drop_last());
        match dropped_label(entries.last()) {
            Some(label) => rest.push(label),
            None => rest,
        }
    }
}

/// The entities of a relation answer, where the query succeeded and the
/// answer holds a list.
pub open spec fn relation_entries(r: Option<VTRelationResponse>) -> Option<Seq<VTData>> {
    match r {
        Some(resp) => match resp.data {
            Some(d) => Some(d@),
            None => None,
        },
        None => None,
    }
}

/// A list field holds exactly the expected items, or is absent where nothing
/// is expected.
pub open spec fn lists(field: Option<Vec<String>>, expected: Option<Seq<String>>) -> bool {
    match field {
        Some(v) => expected == Some(v@),
        None => expected is None,
    }
}

/// The attributes of a file information answer, where it holds any.
pub open spec fn info_attributes(info: Option<VTResponse>) -> Option<crate::responses::VTAttributes> {
    match info {
        Some(resp) => match resp.data {
            Some(d) => d.attributes,
            None => None,
        },
        None => None,
    }
}

fn entry_ids(entries: &Vec<VTData>) -> (r: Vec<String>)
    ensures
        r@ == ids_of(entries@),
{
    let mut out: Vec<String> = Vec::new();
    let mut i: usize = 0;
    while i < entries.len()
        invariant
            i <= entries.len(),
            out@ == ids_of(entries@.subrange(0, i as int)),
        decreases entries.len() - i,
    {
        assert(entries@.subrange(0, i + 1).drop_last() =~= entries@.subrange(0, i as int));
        match &entries[i].id {
            Some(id) => {
                out.push(id.clone());
            },
            None => {},
        }
        i = i + 1;
    }
    assert(entries@.subrange(0, entries.len() as int) =~= entries@);
    out
}

fn entry_first_name(e: &VTData) -> (r: Option<String>)
    ensures
        r == first_name(*e),
{
    match &e.attributes {
        Some(a) => match &a.names {
            Some(names) => if names.len() > 0 {
                Some(names[0].clone())
            } else {
                None
            },
            None => None,
        },
        None => None,
    }
}

fn entry_labels(entries: &Vec<VTData>) -> (r: Vec<String>)
    ensures
        r@ == dropped_labels(entries@),
{
    let mut out: Vec<String> = Vec::new();
    let mut i: usize = 0;
    while i < entries.len()
        invariant
            i <= entries.len(),
            out@ == dropped_labels(entries@.subrange(0, i as int)),
        decreases entries.len() - i,
    {
        assert(entries@.subrange(0, i + 1).drop_last() =~= entries@.subrange(0, i as int));
        match entry_first_name(&entries[i]) {
            Some(name) => {
                out.push(name);
            },
            None => match &entries[i].id {
                Some(id) => {
                    out.push(id.clone());
                },
                None => {},
            },
        }
        i = i + 1;
    }
    assert(entries@.subrange(0, entries.len() as int) =~= entries@);
    out
}

/// Identifiers of the entities of a relation answer, or nothing where the
/// query failed or the answer holds no list.
fn relation_ids(r: &Option<VTRelationResponse>) -> (out: Option<Vec<String>>)
    ensures
        lists(out, match relation_entries(*r) {
            Some(e) => Some(ids_of(e)),
            None => None,
        }),
{
    match r {
        Some(resp) => match &resp.data {
            Some(d) => Some(entry_ids(d)),
            None => None,
        },
        None => None,
    }
}

/// The snapshot of what the threat-intelligence service said of a sample.
#[derive(Debug)]
pub struct VtReport {
    pub alternative_names: Option<Vec<String>>,
    pub first_seen_date: Option<i64>,
    pub last_analysis_date: Option<i64>,
    pub last_analysis: Option<Analysis>,
    pub reputation: Option<i64>,
    pub contacted_domains: Option<Vec<String>>,
    pub contacted_ips: Option<Vec<String>>,
    pub dropped_files: Option<Vec<String>>,
}

impl VtReport {
    /// Builds the snapshot from the answers to the file information query and
    /// to the three relation queries; `None` stands for a query that failed
    /// or whose answer could not be read, and leaves only its own fields
    /// absent.
    pub fn new(
        file_info: Option<VTResponse>,
        contacted_domains: Option<VTRelationResponse>,
        contacted_ips: Option<VTRelationResponse>,
        dropped_files: Option<VTRelationResponse>,
    ) -> (r: VtReport)
        ensures
            match info_attributes(file_info) {
                Some(a) => {
                    &&& r.alternative_names == a.names
                    &&& r.first_seen_date == a.first_seen_itw_date
                    &&& r.last_analysis_date == a.last_analysis_date
                    &&& r.reputation == a.reputation
                    &&& r.last_analysis == match a.last_analysis_stats {
                        Some(s) => analysis_of(s),
                        None => None,
                    }
                },
                None => {
                    &&& r.alternative_names is None
                    &&& r.first_seen_date is None
                    &&& r.last_analysis_date is None
                    &&& r.reputation is None
                    &&& r.last_analysis is None
                },
            },
            lists(r.contacted_domains, match relation_entries(contacted_domains) {
                Some(e) => Some(ids_of(e)),
                None => None,
            }),
            lists(r.contacted_ips, match relation_entries(contacted_ips) {
                Some(e) => Some(ids_of(e)),
                None => None,
            }),
            lists(r.dropped_files, match relation_entries(dropped_files) {
                Some(e) => Some(dropped_labels(e)),
                None => None,
            }),
    {
        let domains = relation_ids(&contacted_domains);
        let ips = relation_ids(&contacted_ips);
        let dropped = match &dropped_files {
            Some(resp) => match &resp.data {
                Some(d) => Some(entry_labels(d)),
                None => None,
            },
            None => None,
        };
        let mut report = VtReport {
            alternative_names: None,
            first_seen_date: None,
            last_analysis_date: None,
            last_analysis: None,
            reputation: None,
            contacted_domains: domains,
            contacted_ips: ips,
            dropped_files: dropped,
        };
        if let Some(info) = file_info {
            if let Some(data) = info.data {
                if let Some(attributes) = data.attributes {
                    report.last_analysis = match &attributes.last_analysis_stats {
                        Some(stats) => Analysis::from_stats(stats),
                        None => None,
                    };
                    report.alternative_names = attributes.names;
                    report.first_seen_date = attributes.first_seen_itw_date;
                    report.last_analysis_date = attributes.last_analysis_date;
                    report.reputation = attributes.reputation;
                }
            }
        }
        report
    }
}

} // verus!
