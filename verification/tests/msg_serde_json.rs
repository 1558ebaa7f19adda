use exper_inter_process_channel::msg_serde_json::cmp_str_id_and_serde_json_msg_header;

const AN_ID_STR: &str = "3ab7c2f7-6445-4529-a675-5e3246217452";

#[test]
fn test_cmp_str_id_an_serde_json_msg_header() {
    let msg = r#"{"header":{"id":"3ab7c2f7-6445-4529-a675-5e3246217452"}}"#;
    assert!(cmp_str_id_and_serde_json_msg_header(AN_ID_STR, msg));
    let msg = r#"{"header":{"id":"3ab7c2f7-6445-4529-a675-5e3246217452"}"#;
    assert!(cmp_str_id_and_serde_json_msg_header(AN_ID_STR, msg));
    let msg = r#"{"header":{"id":"3ab7c2f7-6445-4529-a675-5e3246217452""#;
    assert!(cmp_str_id_and_serde_json_msg_header(AN_ID_STR, msg));
    let msg = r#"{"header":{"id":"3ab7c2f7-6445-4529-a675-5e3246217452"#;
    assert!(cmp_str_id_and_serde_json_msg_header(AN_ID_STR, msg));
}

#[test]
fn test_cmp_str_id_and_serde_json_msg_header_with_short_id_in_header() {
    let msg = r#"{"header":{"id":"3ab7c2f7-6445-4529-a675-5e324621745"#;
    assert!(!cmp_str_id_and_serde_json_msg_header(AN_ID_STR, msg));
}

#[test]
fn test_cmp_serde_json_msg_header_with_bad_msg_header() {
    // Has "hader" instead of "header"
    let msg = r#"{"hader":{"id":"3ab7c2f7-6445-4529-a675-5e3246217452"#;
    assert!(!cmp_str_id_and_serde_json_msg_header(AN_ID_STR, msg));

    // Has extra space
    let msg = r#"{ "header":{"id":"3ab7c2f7-6445-4529-a675-5e3246217452"#;
    assert!(!cmp_str_id_and_serde_json_msg_header(AN_ID_STR, msg));

    // Has capitialization error
    let msg = r#"{ "Header":{"id":"3ab7c2f7-6445-4529-a675-5e3246217452"#;
    assert!(!cmp_str_id_and_serde_json_msg_header(AN_ID_STR, msg));
}

#[test]
fn test_cmp_str_id_with_different_id() {
    let msg = r#"{"header":{"id":"3ab7c2f7-6445-4529-a675-5e3246217453"}}"#;
    assert!(!cmp_str_id_and_serde_json_msg_header(AN_ID_STR, msg));
    // A shorter id compares only its own bytes.
    assert!(cmp_str_id_and_serde_json_msg_header("3ab7c2f7", r#"{"header":{"id":"3ab7c2f7-6445-4529-a675-5e3246217452"#));
    assert!(!cmp_str_id_and_serde_json_msg_header(AN_ID_STR, ""));
}
