use fossintosh::mount::parse_mount_point;

#[test]
fn mount_point_from_plist_string() {
    assert_eq!(
        parse_mount_point("<string>/Volumes/MyApp</string>").as_deref(),
        Some("/Volumes/MyApp")
    );
}

#[test]
fn mount_point_from_line_without_closing_tag() {
    assert_eq!(
        parse_mount_point("mounted at /Volumes/MyApp").as_deref(),
        Some("/Volumes/MyApp")
    );
}

#[test]
fn mount_point_from_tab_separated_line() {
    assert_eq!(
        parse_mount_point("dev\tGUID\t/Volumes/MyApp").as_deref(),
        Some("/Volumes/MyApp")
    );
}

#[test]
fn mount_point_from_full_plist_output() {
    let out = "<?xml version=\"1.0\" encoding=\"UTF-8\"?>\n<plist version=\"1.0\">\n<dict>\n\t<key>system-entities</key>\n\t<array>\n\t\t<dict>\n\t\t\t<key>dev-entry</key>\n\t\t\t<string>/dev/disk4s1</string>\n\t\t\t<key>mount-point</key>\n\t\t\t<string>/Volumes/My App </string>\n\t\t</dict>\n\t</array>\n</dict>\n</plist>\n";
    assert_eq!(parse_mount_point(out).as_deref(), Some("/Volumes/My App"));
}

#[test]
fn mount_point_with_crlf_lines() {
    let out = "header\r\n  <string>/Volumes/Tool</string>\r\n";
    assert_eq!(parse_mount_point(out).as_deref(), Some("/Volumes/Tool"));
}

#[test]
fn mount_point_fallback_stops_at_closing_tag() {
    let out = "<key>x</key><string> /Volumes/Other</string><string>y</string>";
    assert_eq!(parse_mount_point(out).as_deref(), Some("/Volumes/Other"));
}

#[test]
fn mount_point_fallback_line_with_text_before_volume() {
    let out = "value=/Volumes/Disk Image</string>";
    assert_eq!(parse_mount_point(out).as_deref(), Some("/Volumes/Disk Image"));
}

#[test]
fn legacy_last_line_is_used_without_volumes() {
    let out = "first\n/dev/disk2\tApple_HFS\t/mnt/image \n";
    assert_eq!(parse_mount_point(out).as_deref(), Some("/mnt/image"));
}

#[test]
fn no_mount_point_found() {
    assert_eq!(parse_mount_point(""), None);
    assert_eq!(parse_mount_point("nothing here\nat all"), None);
    assert_eq!(parse_mount_point("a\tb"), None);
}
