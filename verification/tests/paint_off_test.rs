use furnace::output::{ColorMode, OutputRenderer, OutputStyle};
use furnace::types::{FunctionSnapshot, RustFileSnapshot};

#[test]
fn colours_off_leave_the_path_and_the_headings() {
    colored::control::set_override(false);
    let mut listed = OutputStyle::default();
    listed.color = ColorMode::Standard;
    let snapshot = RustFileSnapshot {
        path: "./src/a.rs".to_string(),
        functions: vec![FunctionSnapshot {
            name: "run".to_string(),
            args: vec![],
            variables: vec![],
        }],
        structs: vec![],
        enums: vec![],
        traits: vec![],
        impls: vec![],
    };
    let output = OutputRenderer::new(listed).render(&[snapshot]);
    assert_eq!(output, "./src/a.rs\n  Functions:\n    run (args: 0)\n\n");
}
