use furnace::ai_linting::{
    build_layman_context, build_project_context, parse_ai_response, split_lines, trim_text,
};
use furnace::types::{EnumSnapshot, FunctionSnapshot, RustFileSnapshot, StructSnapshot};

fn sample() -> RustFileSnapshot {
    RustFileSnapshot {
        path: "./src/example.rs".to_string(),
        functions: vec![
            FunctionSnapshot {
                name: "calculate".to_string(),
                args: vec!["x".to_string(), "y".to_string()],
                variables: vec![("result".to_string(), Some("i32".to_string()))],
            },
            FunctionSnapshot {
                name: "process_data".to_string(),
                args: vec!["data".to_string()],
                variables: vec![],
            },
        ],
        structs: vec![StructSnapshot {
            name: "Config".to_string(),
            fields: vec!["host".to_string()],
            methods: vec!["new".to_string(), "validate".to_string()],
        }],
        enums: vec![EnumSnapshot {
            name: "Status".to_string(),
            variants: vec!["Active".to_string(), "Inactive".to_string()],
            methods: vec![],
        }],
        traits: vec![],
        impls: vec![],
    }
}

fn bare(path: &str) -> RustFileSnapshot {
    RustFileSnapshot {
        path: path.to_string(),
        functions: vec![],
        structs: vec![],
        enums: vec![],
        traits: vec![],
        impls: vec![],
    }
}

const ANALYSIS_CLOSING: &str = "\n## Analysis Request\n\n\
Provide a comprehensive code quality analysis including:\n\
1. **Architecture insights**: Overall design patterns and structure\n\
2. **Code quality suggestions**: Naming, complexity, best practices\n\
3. **Potential improvements**: Refactoring opportunities, missing abstractions\n\
4. **Anti-patterns**: Any detected code smells or anti-patterns\n\
5. **Quality score**: Rate the codebase from 0-100\n\n\
Focus on actionable, specific suggestions. Be concise but thorough.\n";

const LAYMAN_OPENING: &str = "# Explain This Codebase in Simple Terms\n\n\
You are explaining code to someone with NO programming experience.\n\
Use analogies, simple language, and focus on WHAT it does and WHY.\n\n\
## Project Structure\n\n";

const LAYMAN_CLOSING: &str = "\n## Your Task\n\n\
For EACH file, explain:\n\n\
1. **Purpose**: What is this file's job in simple terms?\n\
2. **Functionality**: What does it actually DO? (use real-world analogies)\n\
3. **Key Components**: What are the main building blocks?\n\
4. **How It Works**: Describe the logic flow in simple steps\n\n\
Rules:\n\
- NO jargon (avoid terms like 'instantiate', 'iterate', 'polymorphism')\n\
- USE analogies (e.g., 'like a recipe', 'like a filing cabinet')\n\
- Focus on PURPOSE, not syntax\n\
- Explain as if talking to a curious 12-year-old\n\
- Use emojis to make it engaging\n\n";

#[test]
fn analysis_request_for_no_files() {
    let expected = format!(
        "# Rust Project Analysis Request\n\n## Project Overview\n- Files: 0\n- Functions: 0\n- Structs: 0\n- Enums: 0\n\n## Code Structure\n\n{}",
        ANALYSIS_CLOSING
    );
    assert_eq!(build_project_context(&[]), expected);
}

#[test]
fn analysis_request_to_the_letter() {
    let mut second = sample();
    second.path = "b.rs".to_string();
    second.structs.clear();
    let expected = format!(
        "# Rust Project Analysis Request\n\n\
         ## Project Overview\n\
         - Files: 3\n\
         - Functions: 4\n\
         - Structs: 1\n\
         - Enums: 2\n\
         \n## Code Structure\n\n\
         ### File: ./src/example.rs\n\n\
         **Functions:**\n\
         - `calculate(x, y)` - 1 variables\n\
         - `process_data(data)` - 0 variables\n\
         \n\
         **Structs:**\n\
         - `Config` - 1 fields, 2 methods\n\
         \n\
         **Enums:**\n\
         - `Status` - 2 variants\n\
         \n\
         ### File: empty.rs\n\n\
         ### File: b.rs\n\n\
         **Functions:**\n\
         - `calculate(x, y)` - 1 variables\n\
         - `process_data(data)` - 0 variables\n\
         \n\
         **Enums:**\n\
         - `Status` - 2 variants\n\
         \n\
         {}",
        ANALYSIS_CLOSING
    );
    assert_eq!(build_project_context(&[sample(), bare("empty.rs"), second]), expected);
}

#[test]
fn explanation_request_for_no_files() {
    assert_eq!(build_layman_context(&[]), format!("{}{}", LAYMAN_OPENING, LAYMAN_CLOSING));
}

#[test]
fn explanation_request_to_the_letter() {
    let expected = format!(
        "{}\
         ### File: ./src/example.rs\n\n\
         **What this file contains:**\n\n\
         This file has 2 functions (tasks the program can do):\n\n\
         - `calculate`: Takes 2 inputs, processes data\n\
         - `process_data`: Takes 1 input, processes data\n\
         \n\
         This file defines 1 data structure:\n\n\
         - `Config`: A container with 1 piece of information\n\
         \n\
         - `Status`: Represents 2 different possible states or types\n\
         \n\
         ### File: empty.rs\n\n\
         **What this file contains:**\n\n\
         {}",
        LAYMAN_OPENING, LAYMAN_CLOSING
    );
    assert_eq!(build_layman_context(&[sample(), bare("empty.rs")]), expected);
}

#[test]
fn explanation_request_counts_in_plural() {
    let mut file = sample();
    file.functions.truncate(1);
    file.functions[0].args.clear();
    file.structs.push(StructSnapshot {
        name: "Pair".to_string(),
        fields: vec!["a".to_string(), "b".to_string()],
        methods: vec![],
    });
    let text = build_layman_context(&[file]);
    assert!(text.contains("This file has 1 functions (tasks the program can do):\n\n"));
    assert!(text.contains("- `calculate`: Takes 0 inputs, processes data\n"));
    assert!(text.contains("This file defines 2 data structures:\n\n"));
    assert!(text.contains("- `Pair`: A container with 2 pieces of information\n"));
}

#[test]
fn lines_agree_with_std() {
    let samples = [
        "",
        "\n",
        "a",
        "a\n",
        "a\nb",
        "a\n\nb\n",
        "a\r\nb\r\n",
        "a\rb\r",
        "\r\n",
        "\r",
        "x\r\r\ny",
        "\n\n\n",
        "ünï\ncødé\r\n→",
    ];
    for sample in samples {
        let expected: Vec<String> = sample.lines().map(str::to_string).collect();
        assert_eq!(split_lines(sample), expected, "lines of {:?}", sample);
    }
}

#[test]
fn trimming_agrees_with_std() {
    let samples = ["", " ", "a", "  a  ", "\t a b \r\n", "\u{a0}x\u{2003}", "no-space", " \n\t "];
    for sample in samples {
        assert_eq!(trim_text(sample), sample.trim(), "trimmed {:?}", sample);
    }
}

#[test]
fn response_with_points_and_suggestions() {
    let content = "Overall the code is fine.\n- Split the engine\n  * Name things better  \n-not a point\n* \nPlease improve.\r\n- Last one\r\n";
    let points = parse_ai_response(content);
    let expected = vec![
        "Split the engine".to_string(),
        "Name things better".to_string(),
        "Last one".to_string(),
    ];
    assert_eq!(points.insights, expected);
    assert_eq!(points.suggestions, expected);
}

#[test]
fn response_with_points_only() {
    let points = parse_ai_response("- one\n* two\n");
    assert_eq!(points.insights, vec!["one".to_string(), "two".to_string()]);
    assert!(points.suggestions.is_empty());
}

#[test]
fn response_without_points_is_one_insight() {
    let content = "Nothing to report.\nA suggestion without a mark.";
    let points = parse_ai_response(content);
    assert_eq!(points.insights, vec![content.to_string()]);
    assert!(points.suggestions.is_empty());
    let empty = parse_ai_response("");
    assert_eq!(empty.insights, vec!["".to_string()]);
}

#[test]
fn point_marks_need_a_following_space() {
    let points = parse_ai_response("-\n*\n- \n*  x\n--- rule\n");
    assert_eq!(points.insights, vec![" x".to_string()]);
}
