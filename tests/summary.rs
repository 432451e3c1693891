use ghss::summary::{
    security_status, summarize, RawRepo, SecretScanning, SecurityAnalysis, ValidationError,
};

fn repo(name: Option<&str>, status: Option<Option<Option<&str>>>) -> RawRepo {
    RawRepo {
        name: name.map(|n| n.to_string()),
        security_and_analysis: status.map(|ss| SecurityAnalysis {
            secret_scanning: ss.map(|st| SecretScanning { status: st.map(|s| s.to_string()) }),
        }),
    }
}

#[test]
fn transform_keeps_order_and_fills_sentinel() {
    let records = vec![repo(Some("repo1"), Some(Some(Some("enabled")))), repo(Some("repo2"), None)];
    let out = summarize(&records).unwrap();
    assert_eq!(out.len(), 2);
    assert_eq!(out[0].name, "repo1");
    assert_eq!(out[0].security_status, "enabled");
    assert_eq!(out[1].name, "repo2");
    assert_eq!(out[1].security_status, "N/A");
}

#[test]
fn missing_name_fails_whole_batch() {
    let records = vec![
        repo(Some("repo1"), Some(Some(Some("enabled")))),
        repo(None, Some(Some(Some("disabled")))),
        repo(Some("repo3"), None),
    ];
    assert_eq!(summarize(&records).unwrap_err(), ValidationError::MissingName(1));
}

#[test]
fn empty_name_is_refused() {
    let records = vec![repo(Some(""), None)];
    assert_eq!(summarize(&records).unwrap_err(), ValidationError::EmptyName(0));
}

#[test]
fn first_bad_record_is_reported() {
    let records = vec![repo(Some("a"), None), repo(Some(""), None), repo(None, None)];
    assert_eq!(summarize(&records).unwrap_err(), ValidationError::EmptyName(1));
}

#[test]
fn every_broken_link_gives_sentinel() {
    assert_eq!(security_status(&repo(Some("a"), None)), "N/A");
    assert_eq!(security_status(&repo(Some("a"), Some(None))), "N/A");
    assert_eq!(security_status(&repo(Some("a"), Some(Some(None)))), "N/A");
    assert_eq!(security_status(&repo(Some("a"), Some(Some(Some("disabled"))))), "disabled");
}

#[test]
fn empty_batch_gives_empty_summary() {
    assert!(summarize(&Vec::new()).unwrap().is_empty());
}
