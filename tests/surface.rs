use webview_shell::error::ShellError;
use webview_shell::surface::{check_create, opacity_script, refresh_script, HostOutcome, SurfaceTable};

fn attached(t: &mut SurfaceTable, label: &str) {
    assert!(t.create_embedded_webview(label, Ok(())).is_ok());
}

#[test]
fn create_show_destroy_leaves_nothing() {
    let mut t = SurfaceTable::new();
    assert!(check_create(true, "https://example.com/").is_ok());
    attached(&mut t, "tab1");
    assert!(t.contains("tab1"));
    assert!(t.show_webview("tab1", HostOutcome::Done).is_ok());
    assert!(t.is_visible("tab1"));
    assert!(t.destroy_webview("tab1", HostOutcome::Done).is_ok());
    assert!(!t.contains("tab1"));
}

#[test]
fn resize_missing_label_succeeds() {
    let mut t = SurfaceTable::new();
    assert!(t.resize_webview("gone", HostOutcome::Missing, Ok(())).is_ok());
    assert!(!t.contains("gone"));
}

#[test]
fn invalid_url_is_rejected() {
    let t = SurfaceTable::new();
    match check_create(true, "not a url") {
        Err(e @ ShellError::InvalidUrl(_)) => {
            assert_eq!(e.message(), "Invalid URL: relative URL without a base")
        }
        other => panic!("unexpected {:?}", other.map(|u| u.to_string())),
    }
    assert!(!t.contains("not a url"));
}

#[test]
fn missing_window_is_reported() {
    match check_create(false, "https://example.com/") {
        Err(e @ ShellError::WindowNotFound) => assert_eq!(e.message(), "Main window not found"),
        _ => panic!("expected a missing window"),
    }
}

#[test]
fn valid_url_is_kept() {
    let u = check_create(true, "https://example.com/page?q=1").unwrap();
    assert_eq!(u.as_str(), "https://example.com/page?q=1");
}

#[test]
fn attach_failure_records_nothing() {
    let mut t = SurfaceTable::new();
    match t.create_embedded_webview("tab1", Err("label taken".to_string())) {
        Err(e @ ShellError::AttachFailed(_)) => {
            assert_eq!(e.message(), "Failed to create webview: label taken")
        }
        _ => panic!("expected an attach failure"),
    }
    assert!(!t.contains("tab1"));
}

#[test]
fn resize_failures() {
    let mut t = SurfaceTable::new();
    attached(&mut t, "tab1");
    match t.resize_webview("tab1", HostOutcome::Failed("p".to_string()), Ok(())) {
        Err(e) => assert_eq!(e.message(), "Failed to set position: p"),
        Ok(()) => panic!("expected a failure"),
    }
    match t.resize_webview("tab1", HostOutcome::Done, Err("s".to_string())) {
        Err(e) => assert_eq!(e.message(), "Failed to set size: s"),
        Ok(()) => panic!("expected a failure"),
    }
    assert!(t.resize_webview("tab1", HostOutcome::Done, Ok(())).is_ok());
    assert!(t.contains("tab1"));
}

#[test]
fn hide_then_show() {
    let mut t = SurfaceTable::new();
    attached(&mut t, "tab1");
    attached(&mut t, "tab2");
    assert!(t.hide_webview("tab1", HostOutcome::Done).is_ok());
    assert!(!t.is_visible("tab1"));
    assert!(t.is_visible("tab2"));
    assert!(t.show_webview("tab1", HostOutcome::Done).is_ok());
    assert!(t.is_visible("tab1"));
}

#[test]
fn runtime_failures_keep_the_record() {
    let mut t = SurfaceTable::new();
    attached(&mut t, "tab1");
    match t.hide_webview("tab1", HostOutcome::Failed("h".to_string())) {
        Err(e) => assert_eq!(e.message(), "Failed to hide webview: h"),
        Ok(()) => panic!("expected a failure"),
    }
    match t.show_webview("tab1", HostOutcome::Failed("w".to_string())) {
        Err(e) => assert_eq!(e.message(), "Failed to show webview: w"),
        Ok(()) => panic!("expected a failure"),
    }
    match t.destroy_webview("tab1", HostOutcome::Failed("d".to_string())) {
        Err(e) => assert_eq!(e.message(), "Failed to destroy webview: d"),
        Ok(()) => panic!("expected a failure"),
    }
    match t.set_webview_opacity("tab1", HostOutcome::Failed("o".to_string())) {
        Err(e) => assert_eq!(e.message(), "Failed to set opacity: o"),
        Ok(()) => panic!("expected a failure"),
    }
    match t.refresh_webview("tab1", HostOutcome::Failed("r".to_string())) {
        Err(e) => assert_eq!(e.message(), "Failed to refresh webview: r"),
        Ok(()) => panic!("expected a failure"),
    }
    assert!(t.is_visible("tab1"));
}

#[test]
fn missing_labels_are_silent_and_forgotten() {
    let mut t = SurfaceTable::new();
    attached(&mut t, "tab1");
    assert!(t.show_webview("tab1", HostOutcome::Missing).is_ok());
    assert!(!t.contains("tab1"));
    assert!(t.hide_webview("x", HostOutcome::Missing).is_ok());
    assert!(t.destroy_webview("x", HostOutcome::Missing).is_ok());
    assert!(t.set_webview_opacity("x", HostOutcome::Missing).is_ok());
    assert!(t.refresh_webview("x", HostOutcome::Missing).is_ok());
}

#[test]
fn duplicate_create_keeps_one_surface() {
    let mut t = SurfaceTable::new();
    attached(&mut t, "tab1");
    assert!(t.hide_webview("tab1", HostOutcome::Done).is_ok());
    attached(&mut t, "tab1");
    assert!(t.is_visible("tab1"));
    assert!(t.destroy_webview("tab1", HostOutcome::Done).is_ok());
    assert!(!t.contains("tab1"));
}

#[test]
fn opacity_script_text() {
    let s = opacity_script("0.5");
    assert!(s.starts_with("\n            // 设置 webview 容器的透明度\n"));
    assert!(s.contains("document.documentElement.style.opacity = '0.5';"));
    assert!(s.contains("document.body.style.opacity = '0.5';"));
    assert!(s.contains("opacity: 0.5 !important;"));
    assert!(s.ends_with("document.head.appendChild(style);\n            "));
}

#[test]
fn refresh_script_text() {
    assert_eq!(refresh_script(), "\n            window.location.reload();\n            ");
}

#[test]
fn menu_error_messages() {
    assert_eq!(ShellError::MenuItemFailed("x".to_string()).message(), "Failed to create menu item: x");
    assert_eq!(ShellError::MenuBuildFailed("x".to_string()).message(), "Failed to create menu: x");
    assert_eq!(ShellError::MenuPopupFailed("x".to_string()).message(), "Failed to show context menu: x");
}
