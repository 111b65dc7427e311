use textgo::editable::{
    editable_or_default, mac_role_is_editable, mac_role_is_editable_lenient, str_contains,
    windows_is_editable, WindowsEditableProbe, DOCUMENT_CONTROL_TYPE_ID, EDIT_CONTROL_TYPE_ID,
    ROLE_SYSTEM_COMBOBOX, ROLE_SYSTEM_TEXT,
};

#[test]
fn contains_finds_substring() {
    assert!(str_contains("AXTextField", "AXTextField"));
    assert!(str_contains("xyAXTextAreazz", "AXTextArea"));
    assert!(str_contains("anything", ""));
    assert!(!str_contains("AXTextFiel", "AXTextField"));
    assert!(!str_contains("", "a"));
}

#[test]
fn mac_editable_roles() {
    assert!(mac_role_is_editable("AXTextField"));
    assert!(mac_role_is_editable("AXTextArea"));
    assert!(mac_role_is_editable("AXComboBox"));
    assert!(!mac_role_is_editable("AXButton"));
    assert!(!mac_role_is_editable("AXWindow"));
}

#[test]
fn mac_lenient_accepts_window_role() {
    assert!(mac_role_is_editable_lenient("AXWindow"));
    assert!(mac_role_is_editable_lenient("AXTextField"));
    assert!(!mac_role_is_editable_lenient("AXButton"));
}

#[test]
fn windows_edit_and_document_controls_are_editable() {
    let edit = WindowsEditableProbe {
        control_type: Some(EDIT_CONTROL_TYPE_ID),
        value_is_read_only: None,
        legacy_role: None,
    };
    assert!(windows_is_editable(&edit));
    let document = WindowsEditableProbe {
        control_type: Some(DOCUMENT_CONTROL_TYPE_ID),
        value_is_read_only: None,
        legacy_role: None,
    };
    assert!(windows_is_editable(&document));
}

#[test]
fn windows_writable_value_pattern_is_editable() {
    let probe = WindowsEditableProbe {
        control_type: Some(50000),
        value_is_read_only: Some(false),
        legacy_role: None,
    };
    assert!(windows_is_editable(&probe));
    let read_only = WindowsEditableProbe {
        control_type: None,
        value_is_read_only: Some(true),
        legacy_role: None,
    };
    assert!(!windows_is_editable(&read_only));
}

#[test]
fn windows_legacy_roles_are_editable() {
    for role in [ROLE_SYSTEM_TEXT, ROLE_SYSTEM_COMBOBOX] {
        let probe = WindowsEditableProbe {
            control_type: None,
            value_is_read_only: None,
            legacy_role: Some(role),
        };
        assert!(windows_is_editable(&probe));
    }
    let other = WindowsEditableProbe {
        control_type: None,
        value_is_read_only: None,
        legacy_role: Some(43),
    };
    assert!(!windows_is_editable(&other));
}

#[test]
fn failed_probes_are_not_editable() {
    let nothing = WindowsEditableProbe {
        control_type: None,
        value_is_read_only: None,
        legacy_role: None,
    };
    assert!(!windows_is_editable(&nothing));
}

#[test]
fn classification_failure_defaults_to_editable() {
    assert!(editable_or_default(None));
    assert!(editable_or_default(Some(true)));
    assert!(!editable_or_default(Some(false)));
}
