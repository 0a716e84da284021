use vm_panel::error::ErrorKind;
use vm_panel::setup_script::{get_all_setup_scripts, get_script_by_id, GetSetupScriptResponse};

#[test]
fn a_stored_script_is_reported_with_its_id() {
    let stored = Some(("title".to_string(), Some("about".to_string()), "echo hi".to_string(), 4));
    assert_eq!(
        get_script_by_id(9, stored).unwrap(),
        GetSetupScriptResponse {
            id: 9,
            title: "title".to_string(),
            description: Some("about".to_string()),
            script: "echo hi".to_string(),
            author_id: 4,
        }
    );
}

#[test]
fn a_missing_script_is_an_internal_failure() {
    let e = get_script_by_id(9, None).unwrap_err();
    assert_eq!(e.kind, ErrorKind::Internal);
    assert_eq!(e.message, "Script not found");
}

#[test]
fn all_scripts_are_reported_in_order() {
    let rows = vec![
        (1, "a".to_string(), None, "x".to_string(), 10),
        (2, "b".to_string(), Some("d".to_string()), "y".to_string(), 11),
        (3, "c".to_string(), None, "z".to_string(), 10),
    ];
    let reports = get_all_setup_scripts(rows);
    assert_eq!(reports.len(), 3);
    assert_eq!(reports[0].id, 1);
    assert_eq!(reports[1].id, 2);
    assert_eq!(reports[2].id, 3);
    assert_eq!(reports[1].description, Some("d".to_string()));
    assert_eq!(reports[1].script, "y");
    assert_eq!(reports[1].author_id, 11);
    assert_eq!(reports[2].title, "c");
    assert!(get_all_setup_scripts(Vec::new()).is_empty());
}
