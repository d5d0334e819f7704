use rendertoy::compose::{get_shader_text, SourceChunk};
use rendertoy::config::parse_resolution;
use rendertoy::paths::{resolve_include, AssetPath};

fn ctx(ns: &str, path: &str) -> AssetPath {
    AssetPath { crate_name: ns.to_string(), asset_name: path.to_string() }
}

#[test]
fn relative_include_resolves_against_directory() {
    let r = resolve_include("./d.glsl", &ctx("a", "b/c.glsl"));
    assert_eq!(r.crate_name, "a");
    assert_eq!(r.asset_name, "b/d.glsl");
}

#[test]
fn root_relative_include_resolves_against_namespace_root() {
    let r = resolve_include("/x.glsl", &ctx("a", "b/c.glsl"));
    assert_eq!(r.crate_name, "a");
    assert_eq!(r.asset_name, "x.glsl");
}

#[test]
fn namespaced_include_is_absolute() {
    let r = resolve_include("foo::bar.glsl", &ctx("a", "b/c.glsl"));
    assert_eq!(r.crate_name, "foo");
    assert_eq!(r.asset_name, "bar.glsl");
}

#[test]
fn namespaced_include_keeps_nested_path() {
    let r = resolve_include("pkg::shaders/sub/file.glsl", &ctx("a", "b/c.glsl"));
    assert_eq!(r.crate_name, "pkg");
    assert_eq!(r.asset_name, "shaders/sub/file.glsl");
}

#[test]
fn parent_components_collapse() {
    let r = resolve_include("../common/util.glsl", &ctx("a", "b/sub/c.glsl"));
    assert_eq!(r.crate_name, "a");
    assert_eq!(r.asset_name, "b/common/util.glsl");
}

#[test]
fn sibling_include_from_root_file() {
    let r = resolve_include("d.glsl", &ctx("a", "c.glsl"));
    assert_eq!(r.crate_name, "a");
    assert_eq!(r.asset_name, "d.glsl");
}

#[test]
fn dot_components_vanish() {
    let r = resolve_include("././x/./y.glsl", &ctx("ns", "dir/f.glsl"));
    assert_eq!(r.crate_name, "ns");
    assert_eq!(r.asset_name, "dir/x/y.glsl");
}

#[test]
fn leading_parent_is_kept() {
    // From a file at the namespace root there is no directory to remove.
    let r = resolve_include("../x.glsl", &ctx("ns", "f.glsl"));
    assert_eq!(r.crate_name, "ns");
    assert_eq!(r.asset_name, "../x.glsl");
}

#[test]
fn composed_source_has_preamble_and_markers() {
    let chunks = vec![
        SourceChunk { source: "A\n".to_string(), file: "a.glsl".to_string(), line_offset: 0 },
        SourceChunk { source: "B\n".to_string(), file: "b.glsl".to_string(), line_offset: 0 },
    ];
    let text = get_shader_text(&chunks);
    assert_eq!(text, "#version 430\n#line 0 1\nA\n#line 0 2\nB\n");
}

#[test]
fn composed_source_of_nothing_is_the_preamble() {
    let text = get_shader_text(&vec![]);
    assert_eq!(text, "#version 430\n");
}

#[test]
fn composed_source_counts_past_nine() {
    let chunks: Vec<SourceChunk> = (0..12)
        .map(|i| SourceChunk {
            source: format!("s{};", i),
            file: "f".to_string(),
            line_offset: 0,
        })
        .collect();
    let text = get_shader_text(&chunks);
    assert!(text.contains("#line 0 10\ns9;"));
    assert!(text.contains("#line 0 12\ns11;"));
}

#[test]
fn resolution_strings_parse_exactly() {
    assert_eq!(parse_resolution("1280x720"), Some((1280, 720)));
    assert_eq!(parse_resolution("1x1"), Some((1, 1)));
    assert_eq!(parse_resolution("4294967295x2"), Some((4294967295, 2)));
    assert_eq!(parse_resolution("4294967296x2"), None);
    assert_eq!(parse_resolution("1280"), None);
    assert_eq!(parse_resolution("x720"), None);
    assert_eq!(parse_resolution("1280x"), None);
    assert_eq!(parse_resolution("axb"), None);
    assert_eq!(parse_resolution(""), None);
    // The first `x` splits; what follows must be one number.
    assert_eq!(parse_resolution("10x20x30"), None);
}
