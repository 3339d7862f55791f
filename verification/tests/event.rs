use focus_governor::event::{classify, ChangeKind, Focus, FocusEvent, TARGET_CLASS};

fn focus_on(class: &str) -> FocusEvent {
    FocusEvent { change_kind: ChangeKind::Focus, window_class: Some(class.to_string()) }
}

#[test]
fn target_class_is_the_configured_one() {
    assert_eq!(TARGET_CLASS, "roon.exe");
}

#[test]
fn focus_on_target_class_reads_as_target() {
    assert_eq!(classify(&focus_on("roon.exe")), Focus::Target);
}

#[test]
fn focus_on_another_class_reads_as_elsewhere() {
    assert_eq!(classify(&focus_on("editor.exe")), Focus::Elsewhere);
}

#[test]
fn class_is_compared_with_its_case() {
    assert_eq!(classify(&focus_on("Roon.exe")), Focus::Elsewhere);
    assert_eq!(classify(&focus_on("ROON.EXE")), Focus::Elsewhere);
}

#[test]
fn class_is_compared_as_a_whole() {
    assert_eq!(classify(&focus_on("roon.exe ")), Focus::Elsewhere);
    assert_eq!(classify(&focus_on("roon")), Focus::Elsewhere);
    assert_eq!(classify(&focus_on("my-roon.exe")), Focus::Elsewhere);
    assert_eq!(classify(&focus_on("")), Focus::Elsewhere);
}

#[test]
fn other_change_is_ignored_whatever_the_class() {
    let on_target =
        FocusEvent { change_kind: ChangeKind::Other, window_class: Some("roon.exe".to_string()) };
    let elsewhere =
        FocusEvent { change_kind: ChangeKind::Other, window_class: Some("editor.exe".to_string()) };
    let unnamed = FocusEvent { change_kind: ChangeKind::Other, window_class: None };
    assert_eq!(classify(&on_target), Focus::Ignored);
    assert_eq!(classify(&elsewhere), Focus::Ignored);
    assert_eq!(classify(&unnamed), Focus::Ignored);
}

#[test]
fn focus_without_class_is_ignored() {
    let unnamed = FocusEvent { change_kind: ChangeKind::Focus, window_class: None };
    assert_eq!(classify(&unnamed), Focus::Ignored);
}
