use ghss::summary::{summarize, RawRepo, RepoSummary, SecretScanning, SecurityAnalysis};
use serde_json::Value;

fn to_value(s: &[RepoSummary]) -> Value {
    Value::Array(
        s.iter()
            .map(|r| {
                let mut m = serde_json::Map::new();
                m.insert("name".to_string(), Value::String(r.name.clone()));
                m.insert("security_status".to_string(), Value::String(r.security_status.clone()));
                Value::Object(m)
            })
            .collect(),
    )
}

fn from_value(v: &Value) -> Vec<(String, String)> {
    v.as_array()
        .unwrap()
        .iter()
        .map(|o| {
            (
                o.get("name").unwrap().as_str().unwrap().to_string(),
                o.get("security_status").unwrap().as_str().unwrap().to_string(),
            )
        })
        .collect()
}

#[test]
fn serialized_summaries_parse_back_unchanged() {
    let records = vec![
        RawRepo {
            name: Some("repo1".to_string()),
            security_and_analysis: Some(SecurityAnalysis {
                secret_scanning: Some(SecretScanning { status: Some("enabled".to_string()) }),
            }),
        },
        RawRepo { name: Some("re\"po2\\".to_string()), security_and_analysis: None },
    ];
    let summaries = summarize(&records).unwrap();
    let text = serde_json::to_string(&to_value(&summaries)).unwrap();
    let back: Value = serde_json::from_str(&text).unwrap();
    let expected: Vec<(String, String)> = summaries
        .iter()
        .map(|s| (s.name.clone(), s.security_status.clone()))
        .collect();
    assert_eq!(from_value(&back), expected);
}
