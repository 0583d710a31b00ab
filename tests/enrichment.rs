use malstrap::responses::{VTAttributes, VTData, VTRelationResponse, VTResponse, VTStats};
use malstrap::vt_connect::{FileRelation, VTClient};
use malstrap::vt_report::{Analysis, AnalysisVerdict, VtReport};

fn stats(h: Option<u64>, m: Option<u64>, s: Option<u64>, u: Option<u64>) -> VTStats {
    VTStats { harmless: h, malicious: m, suspicious: s, undetected: u }
}

fn attributes() -> VTAttributes {
    VTAttributes {
        magic: None,
        vhash: None,
        ssdeep: None,
        names: None,
        reputation: None,
        last_analysis_stats: None,
        total_votes: None,
        type_tag: None,
        type_tags: None,
        last_submission_date: None,
        sha1: None,
        size: None,
        md5: None,
        sha256: None,
        meaningful_name: None,
        last_analysis_date: None,
        last_modification_date: None,
        times_submitted: None,
        type_description: None,
        type_extension: None,
        first_submission_date: None,
        first_seen_itw_date: None,
        tags: None,
    }
}

fn entity(id: Option<&str>, names: Option<Vec<&str>>) -> VTData {
    let attrs = names.map(|n| {
        let mut a = attributes();
        a.names = Some(n.into_iter().map(String::from).collect());
        a
    });
    VTData { id: id.map(String::from), file_type: None, links: None, attributes: attrs }
}

fn relation(entries: Vec<VTData>) -> VTRelationResponse {
    VTRelationResponse { data: Some(entries), meta: None, links: None }
}

#[test]
fn verdict_goes_to_the_largest_count() {
    let a = Analysis::from_stats(&stats(Some(2), Some(50), Some(1), Some(10))).unwrap();
    assert_eq!(a.verdict, AnalysisVerdict::MALICIOUS);
    assert_eq!(a.hits, 50);
    assert_eq!(a.total, 63);
    assert_eq!(a.percent(), 79);
}

#[test]
fn verdict_ties_go_to_the_earlier_category() {
    let a = Analysis::from_stats(&stats(Some(5), Some(5), Some(5), Some(5))).unwrap();
    assert_eq!(a.verdict, AnalysisVerdict::HARMLESS);
    let b = Analysis::from_stats(&stats(Some(1), Some(3), Some(3), Some(3))).unwrap();
    assert_eq!(b.verdict, AnalysisVerdict::MALICIOUS);
    let c = Analysis::from_stats(&stats(None, Some(0), Some(4), Some(4))).unwrap();
    assert_eq!(c.verdict, AnalysisVerdict::SUSPICIOUS);
}

#[test]
fn verdict_missing_counts_count_as_zero() {
    let a = Analysis::from_stats(&stats(None, None, None, Some(7))).unwrap();
    assert_eq!(a.verdict, AnalysisVerdict::UNDECTED);
    assert_eq!(a.hits, 7);
    assert_eq!(a.total, 7);
    assert_eq!(a.percent(), 100);
}

#[test]
fn verdict_absent_without_any_count() {
    assert!(Analysis::from_stats(&stats(None, None, None, None)).is_none());
    assert!(Analysis::from_stats(&stats(Some(0), Some(0), None, Some(0))).is_none());
}

#[test]
fn verdict_total_does_not_overflow() {
    let a = Analysis::from_stats(&stats(Some(u64::MAX), Some(u64::MAX), None, None)).unwrap();
    assert_eq!(a.verdict, AnalysisVerdict::HARMLESS);
    assert_eq!(a.total, 2 * (u64::MAX as u128));
    assert_eq!(a.percent(), 50);
}

#[test]
fn report_from_all_answers() {
    let mut attrs = attributes();
    attrs.names = Some(vec!["evil.exe".to_string(), "setup.exe".to_string()]);
    attrs.first_seen_itw_date = Some(1431648000);
    attrs.last_analysis_date = Some(1431648001);
    attrs.reputation = Some(-12);
    attrs.last_analysis_stats = Some(stats(Some(1), Some(9), None, Some(0)));
    let info = VTResponse {
        data: Some(VTData { id: Some("x".into()), file_type: None, links: None, attributes: Some(attrs) }),
        meta: None,
        links: None,
    };
    let domains = relation(vec![entity(Some("a.example"), None), entity(None, None), entity(Some("b.example"), None)]);
    let ips = relation(vec![entity(Some("10.0.0.1"), None)]);
    let dropped = relation(vec![
        entity(Some("id1"), Some(vec!["payload.dll", "other"])),
        entity(Some("id2"), Some(vec![])),
        entity(Some("id3"), None),
        entity(None, None),
    ]);
    let r = VtReport::new(Some(info), Some(domains), Some(ips), Some(dropped));
    assert_eq!(r.alternative_names, Some(vec!["evil.exe".to_string(), "setup.exe".to_string()]));
    assert_eq!(r.first_seen_date, Some(1431648000));
    assert_eq!(r.last_analysis_date, Some(1431648001));
    assert_eq!(r.reputation, Some(-12));
    let a = r.last_analysis.unwrap();
    assert_eq!(a.verdict, AnalysisVerdict::MALICIOUS);
    assert_eq!((a.hits, a.total), (9, 10));
    assert_eq!(r.contacted_domains, Some(vec!["a.example".to_string(), "b.example".to_string()]));
    assert_eq!(r.contacted_ips, Some(vec!["10.0.0.1".to_string()]));
    assert_eq!(
        r.dropped_files,
        Some(vec!["payload.dll".to_string(), "id2".to_string(), "id3".to_string()])
    );
}

#[test]
fn report_failed_queries_leave_only_their_fields_empty() {
    let ips = relation(vec![entity(Some("10.0.0.2"), None)]);
    let r = VtReport::new(None, None, Some(ips), Some(VTRelationResponse { data: None, meta: None, links: None }));
    assert!(r.alternative_names.is_none());
    assert!(r.first_seen_date.is_none());
    assert!(r.last_analysis.is_none());
    assert!(r.reputation.is_none());
    assert!(r.contacted_domains.is_none());
    assert_eq!(r.contacted_ips, Some(vec!["10.0.0.2".to_string()]));
    assert!(r.dropped_files.is_none());
}

#[test]
fn report_empty_relation_list_is_present_and_empty() {
    let r = VtReport::new(None, Some(relation(vec![])), None, None);
    assert_eq!(r.contacted_domains, Some(vec![]));
}

#[test]
fn relation_names_in_resource_paths() {
    assert_eq!(FileRelation::ContactedDomains.as_str(), "contacted_domains");
    assert_eq!(FileRelation::ContactedIps.as_str(), "contacted_ips");
    assert_eq!(FileRelation::DroppedFiles.as_str(), "dropped_files");
    assert_eq!(FileRelation::PeResourceChildren.as_str(), "pe_resource_children");
    assert_eq!(FileRelation::Votes.as_str(), "votes");
}

#[test]
fn client_builds_query_urls() {
    let c = VTClient::new("test-key-123");
    assert_eq!(c.api_key, "test-key-123");
    assert_eq!(c.file_info_url("abcd"), "https://www.virustotal.com/api/v3/files/abcd");
    assert_eq!(
        c.file_relation_url("abcd", &FileRelation::DroppedFiles),
        "https://www.virustotal.com/api/v3/files/abcd/dropped_files"
    );
}

#[test]
fn report_text_shows_each_section() {
    let r = VtReport {
        alternative_names: Some(vec!["a.exe".to_string()]),
        first_seen_date: Some(1431648000),
        last_analysis_date: None,
        last_analysis: Some(Analysis { verdict: AnalysisVerdict::MALICIOUS, hits: 1, total: 3 }),
        reputation: Some(-5),
        contacted_domains: Some(vec!["d.example".to_string()]),
        contacted_ips: Some(vec![]),
        dropped_files: None,
    };
    assert_eq!(
        r.to_text(),
        "Virus-Total Report:\n    Alternative names:\n        - a.exe\n    First seen at: 2015-05-15 00:00:00 UTC\n    Reputation: -5\n    Analysis:\n        Outcome: MALICIOUS\n        Confidence:  33 %\n\n    Contacted domains:\n        d.example\n"
    );
}

#[test]
fn report_text_of_empty_report_is_the_heading() {
    let r = VtReport::new(None, None, None, None);
    assert_eq!(r.to_text(), "Virus-Total Report:");
}
