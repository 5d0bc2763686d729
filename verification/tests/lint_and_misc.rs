use limestudio::graph::GraphMetadata;
use limestudio::lint::{check_realtime_safety, lint_file, violation_detail_text};
use limestudio::surface::color::{format_hex_rgb, parse_hex_rgb};
use limestudio::surface::host_attach::{CompatibilityMatrix, HostType, Platform};

#[test]
fn realtime_safety_lists_forbidden_calls_in_order() {
    assert_eq!(
        check_realtime_safety("fn process() { v.push(1); Vec::push(&mut v, 2); println!(\"x\"); m.lock(); Mutex::lock(&m); }"),
        vec!["println!".to_string(), "Mutex::lock".to_string(), "Vec::push".to_string()]
    );
    assert!(check_realtime_safety("fn process() { let x = 1; }").is_empty());
    assert_eq!(check_realtime_safety("Vec::push"), vec!["Vec::push".to_string()]);
}

#[test]
fn lint_counts_shadow_and_glow() {
    let out = lint_file("Knob::new(p).shadow(true).glow(1.0)", false);
    assert_eq!(out.count, 2);
    assert_eq!(out.findings.len(), 2);
    assert_eq!(out.findings[0].rule, "Matte Rule 2.1");
    assert_eq!(out.findings[1].message, "Forbidden: .glow(...) is a crime against clarity.");
}

#[test]
fn lint_raw_rgb_counts_only_when_strict() {
    let relaxed = lint_file("Color::rgb(1, 2, 3)", false);
    assert_eq!(relaxed.count, 0);
    assert_eq!(relaxed.findings.len(), 1);
    assert_eq!(relaxed.findings[0].rule, "Color Rule 2.3");
    let strict = lint_file("Color::rgb(1, 2, 3)", true);
    assert_eq!(strict.count, 1);
    assert!(lint_file(".shadow(false)", true).findings.is_empty());
}

#[test]
fn violation_detail_modes() {
    assert_eq!(
        violation_detail_text("msg", "Matte Rule 2.1", true),
        "Your UI has chosen chaos. Theatrical lighting is a moral failure."
    );
    assert_eq!(violation_detail_text("msg", "Color Rule 2.3", true), "CRIME: msg");
    assert_eq!(violation_detail_text("msg", "Matte Rule 2.1", false), "msg");
}

#[test]
fn hex_colours() {
    assert_eq!(parse_hex_rgb("#ff8000"), Some((255, 128, 0)));
    assert_eq!(parse_hex_rgb("##A0b1C2"), Some((160, 177, 194)));
    assert_eq!(parse_hex_rgb("ff8000"), Some((255, 128, 0)));
    assert_eq!(parse_hex_rgb("+f0000"), Some((15, 0, 0)));
    assert_eq!(parse_hex_rgb("zz-100"), Some((0, 0, 0)));
    assert_eq!(parse_hex_rgb("#fff"), None);
    assert_eq!(parse_hex_rgb("#ff80001"), None);
    assert_eq!(parse_hex_rgb("é0102"), Some((0, 1, 2)));
}

#[test]
fn compatibility_matrix() {
    let c = CompatibilityMatrix::for_host(HostType::Cubase, Platform::Windows);
    assert!(c.resize_works && c.focus_stealing && !c.keyboard_transparency);
    let r = CompatibilityMatrix::for_host(HostType::Cubase, Platform::MacOS);
    assert!(r.resize_works && !r.focus_stealing && r.keyboard_transparency);
    let r = CompatibilityMatrix::for_host(HostType::Reaper, Platform::Windows);
    assert!(!r.focus_stealing && r.keyboard_transparency);
}

#[test]
fn graph_metadata_default() {
    let m = GraphMetadata::default();
    assert_eq!(m.project_name, "");
    assert_eq!(m.version, 0);
    assert_eq!(m.total_provenance_hash, [0u8; 32]);
}

#[test]
fn hex_notation_is_lowercase_and_padded() {
    assert_eq!(format_hex_rgb(255, 8, 171), "#ff08ab");
    assert_eq!(format_hex_rgb(0, 0, 0), "#000000");
}

#[test]
fn hex_round_trip() {
    for (r, g, b) in [(0u8, 0u8, 0u8), (255, 255, 255), (1, 128, 254), (16, 15, 160)] {
        assert_eq!(parse_hex_rgb(&format_hex_rgb(r, g, b)), Some((r, g, b)));
    }
}

#[test]
fn parse_then_format_gives_lowercase_digits() {
    let (r, g, b) = parse_hex_rgb("#B2E633").unwrap();
    assert_eq!(format_hex_rgb(r, g, b), "#b2e633");
    let (r, g, b) = parse_hex_rgb("##0aF9c1").unwrap();
    assert_eq!(format_hex_rgb(r, g, b), "#0af9c1");
}
