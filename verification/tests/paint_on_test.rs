use furnace::output::{ColorMode, OutputRenderer, OutputStyle};
use furnace::types::{FunctionSnapshot, RustFileSnapshot};

#[test]
fn colours_on_wrap_the_path_and_the_headings() {
    colored::control::set_override(true);
    let mut listed = OutputStyle::default();
    listed.color = ColorMode::Standard;
    let snapshot = RustFileSnapshot {
        path: "./src/a.rs".to_string(),
        functions: vec![FunctionSnapshot {
            name: "run".to_string(),
            args: vec![],
            variables: vec![],
        }],
        structs: vec![],
        enums: vec![],
        traits: vec![],
        impls: vec![],
    };
    let output = OutputRenderer::new(listed).render(&[snapshot]);
    assert_eq!(
        output,
        "\x1B[94m./src/a.rs\x1B[0m\n  \x1B[1;33mFunctions\x1B[0m:\n    run (args: 0)\n\n"
    );
}
