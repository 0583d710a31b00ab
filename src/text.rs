//! Human-readable renderings of samples and their reports.
use crate::local_report::LocalReport;
use crate::sample::Sample;
use crate::vt_report::{Analysis, AnalysisVerdict, VtReport};
use crate::hex_text::hex_text;
use vstd::prelude::*;

verus! {

/// The decimal digits of a natural number, the most significant first.
pub open spec fn digits(n: nat) -> Seq<char>
    decreases n,
{
    let d = seq!['0', '1', '2', '3', '4', '5', '6', '7', '8', '9'][(n % 10) as int];
    if n < 10 {
        seq![d]
    } else {
        digits(n / 10).push(d)
    }
}

/// An integer in decimal, with a minus sign when negative.
pub open spec fn decimal(n: int) -> Seq<char> {
    if n < 0 {
        seq!['-'] + digits((-n) as nat)
    } else {
        digits(n as nat)
    }
}

/// Relies on i64's to_string: the number in decimal, with a minus sign when
/// negative.
#[verifier::external_body]
fn int_text(n: i64) -> (r: String)
    ensures
        r@ == decimal(n as int),
{
    n.to_string()
}

/// How a point in time, in seconds since the Unix epoch, reads in UTC; none
/// where it lies outside the calendar's range.
pub uninterp spec fn utc_text_of(secs: int) -> Option<Seq<char>>;

/// Relies on chrono's DateTime::from_timestamp and its Display: the UTC date
/// and time of the timestamp, where it lies in chrono's range.
#[verifier::external_body]
fn utc_text(secs: i64) -> (r: Option<String>)
    ensures
        match r {
            Some(t) => utc_text_of(secs as int) == Some(t@),
            None => utc_text_of(secs as int) is None,
        },
{
    chrono::DateTime::from_timestamp(secs, 0).map(|t| t.to_string())
}

/// A timestamp as shown: its UTC date and time, or the bare number of
/// seconds where no calendar date can be given.
pub open spec fn timestamp_shown(secs: int) -> Seq<char> {
    match utc_text_of(secs) {
        Some(t) => t,
        None => decimal(secs),
    }
}

fn timestamp_text(secs: i64) -> (r: String)
    ensures
        r@ == timestamp_shown(secs as int),
{
    match utc_text(secs) {
        Some(t) => t,
        None => int_text(secs),
    }
}

/// One line per item, each opened by `lead`.
pub open spec fn item_lines(items: Seq<String>, lead: Seq<char>) -> Seq<char>
    decreases items.len(),
{
    if items.len() == 0 {
        Seq::empty()
    } else {
        item_lines(items.drop_last(), lead) + lead + items.last()@
    }
}

fn push_items(out: String, items: &Vec<String>, lead: &str) -> (r: String)
    ensures
        r@ == out@ + item_lines(items@, lead@),
{
    let mut text = out;
    let mut i: usize = 0;
    while i < items.len()
        invariant
            i <= items@.len(),
            text@ == out@ + item_lines(items@.take(i as int), lead@),
        decreases items.len() - i,
    {
        assert(items@.take(i + 1).drop_last() =~= items@.take(i as int));
        text = text.concat(lead).concat(items[i].as_str());
        i = i + 1;
    }
    assert(items@.take(items@.len() as int) =~= items@);
    text
}

/// The name of a verdict as reports show it.
pub open spec fn verdict_name(v: AnalysisVerdict) -> Seq<char> {
    match v {
        AnalysisVerdict::UNDECTED => "UNDECTED"@,
        AnalysisVerdict::HARMLESS => "HARMLESS"@,
        AnalysisVerdict::SUSPICIOUS => "SUSPICIOUS"@,
        AnalysisVerdict::MALICIOUS => "MALICIOUS"@,
    }
}

fn verdict_text(v: AnalysisVerdict) -> (r: &'static str)
    ensures
        r@ == verdict_name(v),
{
    match v {
        AnalysisVerdict::UNDECTED => "UNDECTED",
        AnalysisVerdict::HARMLESS => "HARMLESS",
        AnalysisVerdict::SUSPICIOUS => "SUSPICIOUS",
        AnalysisVerdict::MALICIOUS => "MALICIOUS",
    }
}

/// The confidence of an analysis in whole percent, rounded down.
pub open spec fn percent(a: Analysis) -> int {
    if a.total == 0 {
        0
    } else {
        (100 * a.hits as int) / (a.total as int)
    }
}

/// A number right-aligned in three columns.
pub open spec fn padded3(n: int) -> Seq<char> {
    if 0 <= n < 10 {
        "  "@ + decimal(n)
    } else if 0 <= n < 100 {
        " "@ + decimal(n)
    } else {
        decimal(n)
    }
}

impl Analysis {
    /// The confidence in whole percent, rounded down.
    pub fn percent(&self) -> (r: u8)
        requires
            self.hits <= self.total,
        ensures
            r as int == percent(*self),
            r <= 100,
    {
        if self.total == 0 {
            0
        } else {
            let p = (100 * self.hits as u128) / self.total;
            proof {
                let h = self.hits as int;
                let t = self.total as int;
                assert(100 * h <= 100 * t) by (nonlinear_arith)
                    requires
                        h <= t,
                ;
                assert((100 * h) / t <= 100) by (nonlinear_arith)
                    requires
                        100 * h <= 100 * t,
                        t > 0,
                ;
            }
            p as u8
        }
    }
}

/// The lines that show an analysis.
pub open spec fn analysis_lines(a: Analysis) -> Seq<char> {
    "\n    Analysis:\n"@ + "        Outcome: "@ + verdict_name(a.verdict) + "\n"@
        + "        Confidence: "@ + padded3(percent(a)) + " %\n"@
}

/// A titled list, shown only where it holds an item; each item stands on a
/// line of its own, and a line break closes the list where `closed` is set.
pub open spec fn list_section(
    list: Option<Vec<String>>,
    title: Seq<char>,
    lead: Seq<char>,
    closed: bool,
) -> Seq<char> {
    match list {
        Some(v) => if v@.len() > 0 {
            title + item_lines(v@, lead) + if closed {
                "\n"@
            } else {
                Seq::empty()
            }
        } else {
            Seq::empty()
        },
        None => Seq::empty(),
    }
}

fn push_list(
    out: String,
    list: &Option<Vec<String>>,
    title: &str,
    lead: &str,
    closed: bool,
) -> (r: String)
    ensures
        r@ == out@ + list_section(*list, title@, lead@, closed),
{
    match list {
        Some(v) => if v.len() > 0 {
            let with_title = out.concat(title);
            let with_items = push_items(with_title, v, lead);
            if closed {
                with_items.concat("\n")
            } else {
                proof {
                    assert(with_items@ =~= out@ + list_section(*list, title@, lead@, closed));
                }
                with_items
            }
        } else {
            proof {
                assert(out@ =~= out@ + list_section(*list, title@, lead@, closed));
            }
            out
        },
        None => {
            proof {
                assert(out@ =~= out@ + list_section(*list, title@, lead@, closed));
            }
            out
        },
    }
}

impl LocalReport {
    /// The notes as text: a heading, then the tags, one to a line.
    pub fn to_text(&self) -> (r: String)
        ensures
            r@ == "Workspace Report:"@ + match self.custom_tags {
                Some(v) => "\n    Custom tags:"@ + item_lines(v@, "\n        - "@),
                None => Seq::empty(),
            },
    {
        let out = String::from_str("Workspace Report:");
        match &self.custom_tags {
            Some(v) => {
                let titled = out.concat("\n    Custom tags:");
                let r = push_items(titled, v, "\n        - ");
                assert(r@ =~= "Workspace Report:"@ + ("\n    Custom tags:"@ + item_lines(
                    v@,
                    "\n        - "@,
                )));
                r
            },
            None => {
                assert(out@ =~= "Workspace Report:"@ + Seq::<char>::empty());
                out
            },
        }
    }
}

/// A labelled line for a value that may be absent.
pub open spec fn optional_line(label: Seq<char>, shown: Option<Seq<char>>) -> Seq<char> {
    match shown {
        Some(t) => label + t,
        None => Seq::empty(),
    }
}

fn push_optional(out: String, label: &str, shown: Option<String>) -> (r: String)
    ensures
        r@ == out@ + optional_line(label@, match shown {
            Some(t) => Some(t@),
            None => None,
        }),
{
    match shown {
        Some(t) => out.concat(label).concat(t.as_str()),
        None => {
            assert(out@ =~= out@ + Seq::<char>::empty());
            out
        },
    }
}

/// The text of a snapshot, section by section; a section whose value is
/// absent or empty is left out.
pub open spec fn report_text(r: VtReport) -> Seq<char> {
    "Virus-Total Report:"@ + list_section(
        r.alternative_names,
        "\n    Alternative names:"@,
        "\n        - "@,
        false,
    ) + optional_line(
        "\n    First seen at: "@,
        match r.first_seen_date {
            Some(d) => Some(timestamp_shown(d as int)),
            None => None,
        },
    ) + optional_line(
        "\n    Last analysed: "@,
        match r.last_analysis_date {
            Some(d) => Some(timestamp_shown(d as int)),
            None => None,
        },
    ) + optional_line(
        "\n    Reputation: "@,
        match r.reputation {
            Some(n) => Some(decimal(n as int)),
            None => None,
        },
    ) + match r.last_analysis {
        Some(a) => analysis_lines(a),
        None => Seq::empty(),
    } + list_section(r.contacted_domains, "\n    Contacted domains:"@, "\n        "@, true)
        + list_section(r.contacted_ips, "\n    Contacted ips:"@, "\n        "@, true)
        + list_section(r.dropped_files, "\n    Dropped files:"@, "\n        "@, true)
}

fn padded_percent(a: &Analysis) -> (r: String)
    requires
        a.hits <= a.total,
    ensures
        r@ == padded3(percent(*a)),
{
    let p = a.percent();
    let digits = int_text(p as i64);
    if p < 10 {
        String::from_str("  ").concat(digits.as_str())
    } else if p < 100 {
        String::from_str(" ").concat(digits.as_str())
    } else {
        digits
    }
}

fn push_analysis(out: String, a: &Analysis) -> (r: String)
    requires
        a.hits <= a.total,
    ensures
        r@ == out@ + analysis_lines(*a),
{
    let p = padded_percent(a);
    let r = out.concat("\n    Analysis:\n").concat("        Outcome: ").concat(
        verdict_text(a.verdict),
    ).concat("\n").concat("        Confidence: ").concat(p.as_str()).concat(" %\n");
    assert(r@ =~= out@ + analysis_lines(*a));
    r
}

impl VtReport {
    /// The snapshot as text.
    pub fn to_text(&self) -> (r: String)
        requires
            self.last_analysis is Some ==> self.last_analysis->Some_0.hits
                <= self.last_analysis->Some_0.total,
        ensures
            r@ == report_text(*self),
    {
        let out = String::from_str("Virus-Total Report:");
        let out = push_list(out, &self.alternative_names, "\n    Alternative names:", "\n        - ", false);
        let first = match self.first_seen_date {
            Some(d) => Some(timestamp_text(d)),
            None => None,
        };
        let out = push_optional(out, "\n    First seen at: ", first);
        let last = match self.last_analysis_date {
            Some(d) => Some(timestamp_text(d)),
            None => None,
        };
        let out = push_optional(out, "\n    Last analysed: ", last);
        let reputation = match self.reputation {
            Some(n) => Some(int_text(n)),
            None => None,
        };
        let out = push_optional(out, "\n    Reputation: ", reputation);
        let out = match &self.last_analysis {
            Some(a) => push_analysis(out, a),
            None => {
                assert(out@ =~= out@ + Seq::<char>::empty());
                out
            },
        };
        let out = push_list(out, &self.contacted_domains, "\n    Contacted domains:", "\n        ", true);
        let out = push_list(out, &self.contacted_ips, "\n    Contacted ips:", "\n        ", true);
        let out = push_list(out, &self.dropped_files, "\n    Dropped files:", "\n        ", true);
        out
    }
}

/// The text of a sample: its identity and digests, then its notes and its
/// snapshot where it has them.
pub open spec fn sample_text(s: Sample) -> Seq<char> {
    "Sample name: "@ + s.name@ + "\nPath: "@ + s.path@ + "\nFile type: "@ + s.magic@
        + "\nHashs:\n    MD5:    "@ + hex_text(s.md5@) + "\n    SHA256: "@ + hex_text(s.sha256@)
        + "\n    SHA512: "@ + hex_text(s.sha512@) + match s.local_report {
        Some(lr) => "\n"@ + "Workspace Report:"@ + match lr.custom_tags {
            Some(v) => "\n    Custom tags:"@ + item_lines(v@, "\n        - "@),
            None => Seq::empty(),
        },
        None => Seq::empty(),
    } + match s.vt_report {
        Some(r) => "\n"@ + report_text(r),
        None => Seq::empty(),
    }
}

fn push_identity(s: &Sample) -> (r: String)
    ensures
        r@ == "Sample name: "@ + s.name@ + "\nPath: "@ + s.path@ + "\nFile type: "@ + s.magic@
            + "\nHashs:\n    MD5:    "@ + hex_text(s.md5@) + "\n    SHA256: "@ + hex_text(
            s.sha256@,
        ) + "\n    SHA512: "@ + hex_text(s.sha512@),
{
    let md5 = s.md5_hex();
    let sha256 = s.sha256_hex();
    let sha512 = s.sha512_hex();
    String::from_str("Sample name: ").concat(s.name.as_str()).concat("\nPath: ").concat(
        s.path.as_str(),
    ).concat("\nFile type: ").concat(s.magic.as_str()).concat("\nHashs:\n    MD5:    ").concat(
        md5.as_str(),
    ).concat("\n    SHA256: ").concat(sha256.as_str()).concat("\n    SHA512: ").concat(
        sha512.as_str(),
    )
}

impl Sample {
    /// The sample as text.
    pub fn to_text(&self) -> (r: String)
        requires
            self.vt_report is Some ==> (self.vt_report->Some_0.last_analysis is Some
                ==> self.vt_report->Some_0.last_analysis->Some_0.hits
                <= self.vt_report->Some_0.last_analysis->Some_0.total),
        ensures
            r@ == sample_text(*self),
    {
        let out = push_identity(self);
        let ghost identity = out@;
        let out = match &self.local_report {
            Some(lr) => {
                let notes = lr.to_text();
                let r = out.concat("\n").concat(notes.as_str());
                assert(r@ =~= identity + ("\n"@ + notes@));
                r
            },
            None => {
                assert(out@ =~= out@ + Seq::<char>::empty());
                out
            },
        };
        let ghost with_notes = out@;
        let out = match &self.vt_report {
            Some(vt) => {
                let report = vt.to_text();
                let r = out.concat("\n").concat(report.as_str());
                assert(r@ =~= with_notes + ("\n"@ + report@));
                r
            },
            None => {
                assert(out@ =~= out@ + Seq::<char>::empty());
                out
            },
        };
        out
    }
}

} // verus!
