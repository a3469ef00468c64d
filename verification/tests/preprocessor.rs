use autograph::gl_enums;
use autograph::glsl_text::split_lines;
use autograph::pipeline::VertexAttribute;
use autograph::preprocessor::FileCursor;
use autograph::preprocessor::LineAction;
use autograph::preprocessor::PreprocessorState;
use autograph::preprocessor::PS_FRAGMENT;
use autograph::preprocessor::PS_GEOMETRY;
use autograph::preprocessor::PS_VERTEX;

fn lines(src: &str) -> Vec<String> {
    let chars: Vec<char> = src.chars().collect();
    split_lines(&chars).iter().map(|l| l.iter().collect()).collect()
}

fn run(st: &mut PreprocessorState, cur: &mut FileCursor, src: &str) -> Vec<String> {
    let mut includes = Vec::new();
    for l in lines(src) {
        if let LineAction::Include(p) = st.preprocess_line(cur, &l) {
            includes.push(p);
        }
    }
    includes
}

fn text(v: &[char]) -> String {
    v.iter().collect()
}

#[test]
fn split_lines_like_str_lines() {
    for s in ["a\r\nb\n\nc", "a\n", "", "x\r", "\n\n", "one line", "a\rb\nc\r\n"] {
        let expected: Vec<String> = s.lines().map(|l| l.to_string()).collect();
        assert_eq!(lines(s), expected, "{:?}", s);
    }
}

#[test]
fn directives_and_code() {
    let src = "#version 450\n#pragma stages(vertex, fragment)\n#pragma input_layout(rgba32f, 0, 0, rg32f, 0, 16)\n#pragma primitive_topology(triangle)\nvoid main() {}\n";
    let mut st = PreprocessorState::new();
    let mut cur = st.begin_file();
    assert!(run(&mut st, &mut cur, src).is_empty());
    assert_eq!(st.num_errors, 0);
    assert_eq!(st.last_seen_version, Some(450));
    assert_eq!(st.enabled_pipeline_stages.bits, PS_VERTEX | PS_FRAGMENT);
    assert_eq!(st.primitive_topology, Some(gl_enums::GL_TRIANGLES));
    assert_eq!(
        st.input_layout,
        Some(vec![
            VertexAttribute { slot: 0, ty: gl_enums::GL_FLOAT, size: 4, relative_offset: 0, normalized: false },
            VertexAttribute { slot: 0, ty: gl_enums::GL_FLOAT, size: 2, relative_offset: 16, normalized: false },
        ])
    );
    // pragmas do not count as lines: the code line is reported as line 2
    assert_eq!(text(&st.preprocessed), "#line 2 0\nvoid main() {}\n");
}

#[test]
fn assembled_stages() {
    let src = "#version 430\n#pragma stages(vertex,geometry)\nfloat f;\n";
    let mut st = PreprocessorState::new();
    let mut cur = st.begin_file();
    run(&mut st, &mut cur, src);
    let (stages, pp) = st.assemble_shaders(&["FOO", "BAR=1", "EMPTY="]);
    assert_eq!(stages.bits, PS_VERTEX | PS_GEOMETRY);
    assert!(stages.contains(PS_GEOMETRY));
    assert!(!stages.contains(PS_FRAGMENT));
    let header = "#version 430\n#define FOO#define BAR 1\n#define EMPTY \n";
    assert_eq!(
        pp.vertex.as_deref(),
        Some(format!("{}#define _VERTEX_\n#line 0 0\n#line 2 0\nfloat f;\n", header).as_str())
    );
    assert_eq!(
        pp.geometry.as_deref(),
        Some(format!("{}#define _GEOMETRY_\n#line 0 0\n#line 2 0\nfloat f;\n", header).as_str())
    );
    assert!(pp.fragment.is_none());
    assert!(pp.compute.is_none());
    assert!(pp.input_layout.is_none());
    assert!(pp.primitive_topology.is_none());
}

#[test]
fn default_version_is_330() {
    let mut st = PreprocessorState::new();
    let mut cur = st.begin_file();
    run(&mut st, &mut cur, "#pragma stages(fragment)\nout vec4 c;");
    let (_, pp) = st.assemble_shaders(&[]);
    assert_eq!(
        pp.fragment.as_deref(),
        Some("#version 330\n#define _FRAGMENT_\n#line 0 0\nout vec4 c;\n")
    );
}

#[test]
fn includes_are_handed_to_the_caller() {
    let mut st = PreprocessorState::new();
    let mut cur = st.begin_file();
    let inc = run(&mut st, &mut cur, "  #include   \"common/lighting.glsl\"  \nvoid f();\n");
    assert_eq!(inc, vec!["common/lighting.glsl".to_string()]);
    assert_eq!(cur.cur_line, 3);
    // an included file gets the next index, and its lines count from 1
    let mut inner = st.begin_file();
    assert_eq!(inner.index, 1);
    assert_eq!(inner.cur_line, 1);
    run(&mut st, &mut inner, "int x;\n");
    assert_eq!(text(&st.preprocessed), "#line 2 0\nvoid f();\nint x;\n");
    st.include_failed();
    assert_eq!(st.num_errors, 1);
}

#[test]
fn errors_are_counted() {
    let src = "#pragma stages(vertex, bogus)\n#pragma foo\n#pragma input_layout(rgba32f, 0)\n#pragma input_layout(rgb9f, 0, 0)\n#pragma primitive_topology(line)\n#pragma primitive_topology(triangle)\n#pragma primitive_topology(quad)\n#version 99999999999\n";
    let mut st = PreprocessorState::new();
    let mut cur = st.begin_file();
    run(&mut st, &mut cur, src);
    assert_eq!(st.num_errors, 7);
    assert_eq!(st.enabled_pipeline_stages.bits, PS_VERTEX);
    assert!(st.input_layout.is_none());
    assert_eq!(st.primitive_topology, Some(gl_enums::GL_LINES));
    assert_eq!(st.last_seen_version, None);
}

#[test]
fn duplicate_input_layout_is_an_error() {
    let mut st = PreprocessorState::new();
    let mut cur = st.begin_file();
    run(&mut st, &mut cur, "#pragma input_layout(rgba8_unorm, 1, 4)\n#pragma input_layout(r32f, 0, 0)\n");
    assert_eq!(st.num_errors, 1);
    assert_eq!(
        st.input_layout,
        Some(vec![VertexAttribute { slot: 1, ty: gl_enums::GL_UNSIGNED_BYTE, size: 4, relative_offset: 4, normalized: true }])
    );
}

#[test]
fn lines_that_only_look_like_directives_are_code() {
    let mut st = PreprocessorState::new();
    let mut cur = st.begin_file();
    run(&mut st, &mut cur, "#version 450 core\n#pragma\n#include <x>\n");
    assert_eq!(st.num_errors, 0);
    assert_eq!(st.last_seen_version, None);
    assert_eq!(text(&st.preprocessed), "#version 450 core\n#pragma\n#include <x>\n");
}

#[test]
fn version_lines_are_followed_by_line_directives() {
    let mut st = PreprocessorState::new();
    let mut cur = st.begin_file();
    run(&mut st, &mut cur, "a\n#version 440\nb\nc\n#version 450\nd\n");
    assert_eq!(st.last_seen_version, Some(450));
    assert_eq!(text(&st.preprocessed), "a\n#line 3 0\nb\nc\n#line 6 0\nd\n");
}

#[test]
fn code_lines_are_copied_in_order() {
    let src = "int a;\n#version 330\nint b;\n#pragma stages(vertex)\nint c;\n";
    let mut st = PreprocessorState::new();
    let mut cur = st.begin_file();
    assert!(run(&mut st, &mut cur, src).is_empty());
    let out = text(&st.preprocessed);
    let kept: Vec<&str> = out.lines().filter(|l| !l.starts_with("#line ")).collect();
    assert_eq!(kept, vec!["int a;", "int b;", "int c;"]);
    assert_eq!(out, "int a;\n#line 3 0\nint b;\nint c;\n");
}

#[test]
fn errors_of_an_included_file_stay_there() {
    let mut st = PreprocessorState::new();
    let mut cur = st.begin_file();
    let inc = run(&mut st, &mut cur, "#include \"inc.glsl\"\n");
    assert_eq!(inc, vec!["inc.glsl".to_string()]);
    let before = st.num_errors;
    let mut inner = st.begin_file();
    run(&mut st, &mut inner, "#pragma foo\nint y;\n");
    assert_eq!(st.num_errors, before + 1);
    st.end_include(before);
    assert_eq!(st.num_errors, before);
    assert_eq!(st.num_files, 2);
    assert!(text(&st.preprocessed).ends_with("int y;\n"));
}
