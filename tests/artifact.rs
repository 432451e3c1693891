use ghss::artifact::{artifact_file_name, new_artifact_name};

#[test]
fn file_name_appends_extension() {
    assert_eq!(artifact_file_name("abc"), "abc.json");
}

#[test]
fn new_name_is_hyphenated_identifier() {
    let n = new_artifact_name();
    assert_eq!(n.len(), 41);
    assert!(n.ends_with(".json"));
    for (i, c) in n[..36].chars().enumerate() {
        if [8, 13, 18, 23].contains(&i) {
            assert_eq!(c, '-');
        } else {
            assert!(c.is_ascii_digit() || ('a'..='f').contains(&c));
        }
    }
}

#[test]
fn new_names_differ() {
    assert_ne!(new_artifact_name(), new_artifact_name());
}
