use khafre::theme_file::parse_iterm2_plist;

#[test]
fn test_parse_iterm2_plist() {
    let plist = r#"
<?xml version="1.0" encoding="UTF-8"?>
<!DOCTYPE plist PUBLIC "-//Apple//DTD PLIST 1.0//EN" "http://www.apple.com/DTDs/PropertyList-1.0.dtd">
<plist version="1.0">
<dict>
    <key>Background Color</key>
    <dict>
        <key>Red Component</key>
        <real>0.11764705882352941</real>
        <key>Green Component</key>
        <real>0.11764705882352941</real>
        <key>Blue Component</key>
        <real>0.11764705882352941</real>
    </dict>
    <key>Foreground Color</key>
    <dict>
        <key>Red Component</key>
        <real>0.83137254901960789</real>
        <key>Green Component</key>
        <real>0.83137254901960789</real>
        <key>Blue Component</key>
        <real>0.83137254901960789</real>
    </dict>
    <key>Ansi 0 Color</key>
    <dict>
        <key>Red Component</key>
        <real>0.0</real>
        <key>Green Component</key>
        <real>0.0</real>
        <key>Blue Component</key>
        <real>0.0</real>
    </dict>
</dict>
</plist>
"#;

    let scheme = parse_iterm2_plist(plist).unwrap();
    assert_eq!(scheme.background, Some("#1e1e1e".to_string()));
    assert_eq!(scheme.foreground, Some("#d4d4d4".to_string()));
    assert_eq!(scheme.black, Some("#000000".to_string()));
}

#[test]
fn test_rgb_float_to_hex() {
    let cases: [(f64, f64, f64, &str); 3] = [
        (0.0, 0.0, 0.0, "#000000"),
        (1.0, 1.0, 1.0, "#ffffff"),
        (0.5, 0.5, 0.5, "#808080"),
    ];
    for (rf, gf, bf, expected) in cases {
        let r = (rf.clamp(0.0, 1.0) * 255.0).round() as u8;
        let g = (gf.clamp(0.0, 1.0) * 255.0).round() as u8;
        let b = (bf.clamp(0.0, 1.0) * 255.0).round() as u8;
        assert_eq!(format!("#{:02x}{:02x}{:02x}", r, g, b), expected);
    }
}

#[test]
fn test_parse_iterm2_integer_components() {
    let plist = r#"
<dict>
    <key>Cursor Color</key>
    <dict>
        <key>Red Component</key>
        <integer>1</integer>
        <key>Green Component</key>
        <integer>0</integer>
        <key>Blue Component</key>
        <integer>1</integer>
    </dict>
</dict>
"#;
    let scheme = parse_iterm2_plist(plist).unwrap();
    assert_eq!(scheme.cursor, Some("#ff00ff".to_string()));
    assert_eq!(scheme.background, None);
}

#[test]
fn test_parse_iterm2_clamps_and_rounds() {
    let plist = r#"
<dict>
    <key>Ansi 1 Color</key>
    <dict>
        <key>Red Component</key>
        <real>1.5</real>
        <key>Green Component</key>
        <real>-0.25</real>
        <key>Blue Component</key>
        <real>0.5</real>
    </dict>
</dict>
"#;
    let scheme = parse_iterm2_plist(plist).unwrap();
    // 1.5 clamps to 1, -0.25 clamps to 0, 0.5 scales to 127.5 and
    // rounds half away from zero
    assert_eq!(scheme.red, Some("#ff0080".to_string()));
}

#[test]
fn test_parse_iterm2_malformed_component_is_skipped() {
    let plist = r#"
<dict>
    <key>Ansi 2 Color</key>
    <dict>
        <key>Red Component</key>
        <real>zero</real>
        <key>Green Component</key>
        <real>0.0</real>
        <key>Blue Component</key>
        <real>0.0</real>
    </dict>
</dict>
"#;
    let scheme = parse_iterm2_plist(plist).unwrap();
    assert_eq!(scheme.green, None);
}
