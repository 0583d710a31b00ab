use malstrap::local_report::LocalReport;
use malstrap::project::{join_path, Config, PluginConfig, ProjectManager, Settings};
use malstrap::vt_report::VtReport;
use malstrap::sample::{HashDecodeError, Sample};

fn sample(name: &str, magic: &str, seed: u8) -> Sample {
    Sample {
        name: name.to_string(),
        path: String::new(),
        magic: magic.to_string(),
        md5: vec![seed; 16],
        sha256: vec![seed; 32],
        sha512: vec![seed; 64],
        local_report: None,
        vt_report: None,
    }
}

fn settings(key: Option<&str>, enable: Option<&str>) -> Settings {
    Settings { vt_key: key.map(String::from), vt_enable: enable.map(String::from) }
}

#[test]
fn local_report_add_and_remove_tags() {
    let mut lr = LocalReport::new();
    assert!(lr.custom_tags.is_none());
    lr.add_tag("ransomware");
    lr.add_tag("ransomware");
    lr.add_tag("packed");
    assert_eq!(lr.custom_tags, Some(vec!["ransomware".to_string(), "packed".to_string()]));
    lr.remove_tag("absent");
    lr.remove_tag("ransomware");
    assert_eq!(lr.custom_tags, Some(vec!["packed".to_string()]));
    lr.remove_tag("packed");
    assert!(lr.custom_tags.is_none());
    lr.remove_tag("packed");
    assert!(lr.custom_tags.is_none());
}

#[test]
fn local_report_text_lists_tags() {
    let mut lr = LocalReport::new();
    assert_eq!(lr.to_text(), "Workspace Report:");
    lr.add_tag("apt");
    assert_eq!(lr.to_text(), "Workspace Report:\n    Custom tags:\n        - apt");
}

#[test]
fn add_sample_places_it_under_its_type() {
    let mut p = ProjectManager::new("work", settings(None, None));
    p.add_sample(sample("evil.exe", "application/x-dosexec", 1));
    assert_eq!(p.list_samples().len(), 1);
    let s = p.get_sample("evil.exe").unwrap();
    assert_eq!(s.path, "application/x-dosexec/evil.exe");
    assert_eq!(s.storage_dir(), "application/x-dosexec");
    assert_eq!(s.storage_path(), "application/x-dosexec/evil.exe");
    assert!(p.get_sample("other").is_none());
}

#[test]
fn re_adding_a_sample_overwrites_it() {
    let mut p = ProjectManager::new("work", settings(None, None));
    p.add_sample(sample("evil.exe", "application/x-dosexec", 1));
    p.add_sample(sample("other.bin", "application/octet-stream", 3));
    p.add_sample(sample("evil.exe", "text/plain", 2));
    assert_eq!(p.list_samples().len(), 2);
    let s = p.get_sample("evil.exe").unwrap();
    assert_eq!(s.magic, "text/plain");
    assert_eq!(s.md5, vec![2u8; 16]);
    assert_eq!(s.path, "text/plain/evil.exe");
}

#[test]
fn del_sample_removes_entry_and_missing_is_a_no_op() {
    let mut p = ProjectManager::new("work", settings(None, None));
    p.add_sample(sample("evil.exe", "application/x-dosexec", 1));
    assert!(p.del_sample("missing").is_none());
    assert_eq!(p.list_samples().len(), 1);
    let gone = p.del_sample("evil.exe").unwrap();
    assert_eq!(gone.path, "application/x-dosexec/evil.exe");
    assert!(p.get_sample("evil.exe").is_none());
    assert!(p.list_samples().is_empty());
    assert!(p.del_sample("evil.exe").is_none());
}

#[test]
fn tags_on_samples_come_and_go() {
    let mut p = ProjectManager::new("work", settings(None, None));
    p.add_sample(sample("evil.exe", "application/x-dosexec", 1));
    assert!(p.add_tag("evil.exe", "ransomware"));
    assert!(!p.add_tag("nope", "ransomware"));
    let tags = p.get_sample("evil.exe").unwrap().local_report.as_ref().unwrap().custom_tags.clone();
    assert_eq!(tags, Some(vec!["ransomware".to_string()]));
    assert!(p.remove_tag("evil.exe", "ransomware"));
    assert!(p.get_sample("evil.exe").unwrap().local_report.is_none());
    assert!(!p.remove_tag("nope", "ransomware"));
}

#[test]
fn persisted_sample_reads_back() {
    let mut s = sample("evil.exe", "application/x-dosexec", 7);
    s.add_tag("ransomware");
    let back = Sample::from_persisted(
        s.name.clone(),
        s.path.clone(),
        s.magic.clone(),
        &s.md5_hex(),
        &s.sha256_hex(),
        &s.sha512_hex(),
        s.local_report.as_ref().unwrap().custom_tags.clone(),
        None,
    )
    .unwrap();
    assert_eq!(back.md5, s.md5);
    assert_eq!(back.sha256, s.sha256);
    assert_eq!(back.sha512, s.sha512);
    assert_eq!(back.local_report.unwrap().custom_tags, Some(vec!["ransomware".to_string()]));
}

#[test]
fn persisted_sample_without_tags_has_no_notes() {
    let s = sample("a", "text/plain", 1);
    let empty = Sample::from_persisted(
        "a".into(), "".into(), "text/plain".into(), &s.md5_hex(), &s.sha256_hex(), &s.sha512_hex(), Some(vec![]), None,
    )
    .unwrap();
    assert!(empty.local_report.is_none());
    let doubled = Sample::from_persisted(
        "a".into(), "".into(), "text/plain".into(), &s.md5_hex(), &s.sha256_hex(), &s.sha512_hex(),
        Some(vec!["x".into(), "x".into()]), None,
    )
    .unwrap();
    assert_eq!(doubled.local_report.unwrap().custom_tags, Some(vec!["x".to_string()]));
}

#[test]
fn persisted_sample_with_bad_digest_is_refused() {
    let s = sample("a", "text/plain", 1);
    let r = Sample::from_persisted("a".into(), "".into(), "".into(), "abc", &s.sha256_hex(), &s.sha512_hex(), None, None);
    assert_eq!(r.unwrap_err(), HashDecodeError::Md5);
    let r = Sample::from_persisted("a".into(), "".into(), "".into(), &s.md5_hex(), &s.md5_hex(), &s.sha512_hex(), None, None);
    assert_eq!(r.unwrap_err(), HashDecodeError::Sha256);
    let r = Sample::from_persisted("a".into(), "".into(), "".into(), &s.md5_hex(), &s.sha256_hex(), "zz", None, None);
    assert_eq!(r.unwrap_err(), HashDecodeError::Sha512);
}

#[test]
fn enrichment_needs_switch_project_and_key() {
    let mut p = ProjectManager::new("w", settings(Some("test-key-123"), Some("yes")));
    assert_eq!(p.enrichment_key(), None);
    p.vt_enable(true);
    assert!(p.get_plugin_config().virus_total);
    assert_eq!(p.enrichment_key(), Some("test-key-123".to_string()));
    let mut q = ProjectManager::new("w", settings(Some("test-key-123"), Some("no")));
    q.vt_enable(true);
    assert_eq!(q.enrichment_key(), None);
    let mut r = ProjectManager::new("w", settings(None, Some("yes")));
    r.vt_enable(true);
    assert_eq!(r.enrichment_key(), None);
}

#[test]
fn workspace_layout_paths() {
    let p = ProjectManager::new("/tmp/case", settings(None, None));
    assert_eq!(p.path, "/tmp/case/.malstrap");
    assert_eq!(p.config_path, "/tmp/case/.malstrap/config.json");
    assert_eq!(p.config.name, ".malstrap");
    assert_eq!(join_path("dir/", "f"), "dir/f");
    assert_eq!(join_path("", "f"), "f");
    let q = ProjectManager::open(".", settings(None, None), Config::new("x"));
    assert_eq!(q.config_path, "./.malstrap/config.json");
    assert_eq!(q.config.name, "x");
}

#[test]
fn sample_text_lists_identity_and_notes() {
    let mut s = sample("e.exe", "application/x-dosexec", 0);
    s.path = "application/x-dosexec/e.exe".to_string();
    s.add_tag("t");
    let z32 = "0".repeat(32);
    let z64 = "0".repeat(64);
    let z128 = "0".repeat(128);
    assert_eq!(
        s.to_text(),
        format!(
            "Sample name: e.exe\nPath: application/x-dosexec/e.exe\nFile type: application/x-dosexec\nHashs:\n    MD5:    {}\n    SHA256: {}\n    SHA512: {}\nWorkspace Report:\n    Custom tags:\n        - t",
            z32, z64, z128
        )
    );
}

#[test]
fn config_from_samples_keeps_the_last_of_a_name() {
    let c = Config::from_samples(
        "w",
        PluginConfig { virus_total: true },
        vec![sample("a", "text/plain", 1), sample("b", "text/plain", 2), sample("a", "image/png", 3)],
    );
    assert_eq!(c.name, "w");
    assert!(c.plugins.virus_total);
    assert_eq!(c.samples.len(), 2);
    let a = c.samples.iter().find(|s| s.name == "a").unwrap();
    assert_eq!(a.magic, "image/png");
    assert_eq!(a.md5, vec![3u8; 16]);
}

#[test]
fn enriched_sample_is_recorded_when_enrichment_is_on() {
    let mut p = ProjectManager::new("w", settings(Some("test-key-123"), Some("yes")));
    p.vt_enable(true);
    assert!(p.enrichment_key().is_some());
    let mut s = sample("evil.exe", "application/x-dosexec", 1);
    s.vt_report = Some(VtReport::new(None, None, None, None));
    p.add_sample(s);
    assert!(p.get_sample("evil.exe").unwrap().vt_report.is_some());
}
