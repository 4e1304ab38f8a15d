//! Output styles: how a page is laid out, how much it tells, and how it is
//! adorned. A style is picked by preset and refined aspect by aspect.

use vstd::prelude::*;
use vstd::string::{StringExecFns, StringSliceAdditionalSpecFns};
use vstd::utf8::{decode_utf8, encode_utf8, is_char_boundary};
use colored::Colorize;
use crate::text::{
    contains_text, decimal, decimal_text, file_name, join_texts, joined_with, last_component,
    lemma_flat_map_none, lemma_flat_map_step, lemma_flatten_step, pad_right, padded,
};
use crate::types::{
    EnumModel, EnumSnapshot, FunctionModel, FunctionSnapshot, RustFileSnapshot, SnapshotModel,
    StructModel, StructSnapshot,
};

verus! {

/// The arrangement of a page.
#[derive(Debug, Clone, Copy, PartialEq, Eq, Structural)]
pub enum Layout {
    /// A simple list.
    Plain,
    /// A tree with a branch for each file.
    Tree,
    /// A table with a row for each file.
    Grid,
    /// One dense line for each file.
    Compact,
}

/// How much a page tells of each declaration.
#[derive(Debug, Clone, Copy, PartialEq, Eq, Structural)]
pub enum Detail {
    /// Names only.
    Minimal,
    /// Names and counts.
    Standard,
    /// Everything.
    Verbose,
}

/// How a page is coloured.
#[derive(Debug, Clone, Copy, PartialEq, Eq, Structural)]
pub enum ColorMode {
    /// Not at all.
    NoColor,
    /// With the usual colours.
    Standard,
    /// With badges instead of colours.
    Badges,
}

/// The symbols that a page draws with.
#[derive(Debug, Clone, Copy, PartialEq, Eq, Structural)]
pub enum SymbolSet {
    /// None at all.
    NoSymbols,
    /// Those of ASCII.
    Ascii,
    /// Those of Unicode.
    Unicode,
}

/// A style: one choice for each aspect of a page.
#[derive(Debug, Clone, Copy, PartialEq, Eq, Structural)]
pub struct OutputStyle {
    pub layout: Layout,
    pub detail: Detail,
    pub color: ColorMode,
    pub symbols: SymbolSet,
}

/// What the caller asks for: presets by flag, and a choice for single
/// aspects.
#[derive(Debug, Clone, Copy, PartialEq, Eq, Structural)]
pub struct StyleRequest {
    pub plain: bool,
    pub tree: bool,
    pub compact: bool,
    pub verbose: bool,
    pub minimal: bool,
    pub grid: bool,
    pub markdown: bool,
    pub html: bool,
    pub badges: bool,
    pub monochrome: bool,
    pub layout: Option<Layout>,
    pub detail: Option<Detail>,
    pub color: Option<ColorMode>,
    pub symbols: Option<SymbolSet>,
}

/// The plain style: a simple list with names and counts, unadorned.
pub open spec fn plain_style() -> OutputStyle {
    OutputStyle {
        layout: Layout::Plain,
        detail: Detail::Standard,
        color: ColorMode::NoColor,
        symbols: SymbolSet::NoSymbols,
    }
}

/// The tree style: a coloured tree drawn with the symbols of Unicode.
pub open spec fn tree_style() -> OutputStyle {
    OutputStyle {
        layout: Layout::Tree,
        detail: Detail::Standard,
        color: ColorMode::Standard,
        symbols: SymbolSet::Unicode,
    }
}

/// The compact style: dense lines with names only, unadorned.
pub open spec fn compact_style() -> OutputStyle {
    OutputStyle {
        layout: Layout::Compact,
        detail: Detail::Minimal,
        color: ColorMode::NoColor,
        symbols: SymbolSet::NoSymbols,
    }
}

/// The verbose style: the tree style with every detail.
pub open spec fn verbose_style() -> OutputStyle {
    OutputStyle {
        layout: Layout::Tree,
        detail: Detail::Verbose,
        color: ColorMode::Standard,
        symbols: SymbolSet::Unicode,
    }
}

/// The minimal style: a simple list with names only, unadorned.
pub open spec fn minimal_style() -> OutputStyle {
    OutputStyle {
        layout: Layout::Plain,
        detail: Detail::Minimal,
        color: ColorMode::NoColor,
        symbols: SymbolSet::NoSymbols,
    }
}

/// The grid style: a table drawn with the symbols of ASCII.
pub open spec fn grid_style() -> OutputStyle {
    OutputStyle {
        layout: Layout::Grid,
        detail: Detail::Standard,
        color: ColorMode::NoColor,
        symbols: SymbolSet::Ascii,
    }
}

/// The markdown style: a simple list with the symbols of ASCII.
pub open spec fn markdown_style() -> OutputStyle {
    OutputStyle {
        layout: Layout::Plain,
        detail: Detail::Standard,
        color: ColorMode::NoColor,
        symbols: SymbolSet::Ascii,
    }
}

/// The HTML style: a tree without colours or symbols.
pub open spec fn html_style() -> OutputStyle {
    OutputStyle {
        layout: Layout::Tree,
        detail: Detail::Standard,
        color: ColorMode::NoColor,
        symbols: SymbolSet::NoSymbols,
    }
}

/// The badges style: a simple list with badges and the symbols of Unicode.
pub open spec fn badges_style() -> OutputStyle {
    OutputStyle {
        layout: Layout::Plain,
        detail: Detail::Standard,
        color: ColorMode::Badges,
        symbols: SymbolSet::Unicode,
    }
}

/// The monochrome style: a tree without colours, drawn with the symbols of
/// Unicode.
pub open spec fn monochrome_style() -> OutputStyle {
    OutputStyle {
        layout: Layout::Tree,
        detail: Detail::Standard,
        color: ColorMode::NoColor,
        symbols: SymbolSet::Unicode,
    }
}

/// The preset that a request picks: that of the first flag set, in the order
/// tree, compact, verbose, minimal, grid, markdown, HTML, badges, monochrome;
/// the plain style where none of them is set.
pub open spec fn requested_preset(request: StyleRequest) -> OutputStyle {
    if request.tree {
        tree_style()
    } else if request.compact {
        compact_style()
    } else if request.verbose {
        verbose_style()
    } else if request.minimal {
        minimal_style()
    } else if request.grid {
        grid_style()
    } else if request.markdown {
        markdown_style()
    } else if request.html {
        html_style()
    } else if request.badges {
        badges_style()
    } else if request.monochrome {
        monochrome_style()
    } else {
        plain_style()
    }
}

/// The style that a request resolves to: its preset, with each aspect that
/// the request chooses by itself put in place of the preset's.
pub open spec fn resolved_style(request: StyleRequest) -> OutputStyle {
    let preset = requested_preset(request);
    OutputStyle {
        layout: match request.layout {
            Some(layout) => layout,
            None => preset.layout,
        },
        detail: match request.detail {
            Some(detail) => detail,
            None => preset.detail,
        },
        color: match request.color {
            Some(color) => color,
            None => preset.color,
        },
        symbols: match request.symbols {
            Some(symbols) => symbols,
            None => preset.symbols,
        },
    }
}

impl Default for OutputStyle {
    /// The plain style.
    fn default() -> (style: Self)
        ensures
            style == plain_style(),
    {
        OutputStyle {
            layout: Layout::Plain,
            detail: Detail::Standard,
            color: ColorMode::NoColor,
            symbols: SymbolSet::NoSymbols,
        }
    }
}

impl OutputStyle {
    /// The tree style.
    pub fn tree() -> (style: Self)
        ensures
            style == tree_style(),
    {
        OutputStyle {
            layout: Layout::Tree,
            detail: Detail::Standard,
            color: ColorMode::Standard,
            symbols: SymbolSet::Unicode,
        }
    }

    /// The compact style.
    pub fn compact() -> (style: Self)
        ensures
            style == compact_style(),
    {
        OutputStyle {
            layout: Layout::Compact,
            detail: Detail::Minimal,
            color: ColorMode::NoColor,
            symbols: SymbolSet::NoSymbols,
        }
    }

    /// The verbose style.
    pub fn verbose() -> (style: Self)
        ensures
            style == verbose_style(),
    {
        OutputStyle {
            layout: Layout::Tree,
            detail: Detail::Verbose,
            color: ColorMode::Standard,
            symbols: SymbolSet::Unicode,
        }
    }

    /// The minimal style.
    pub fn minimal() -> (style: Self)
        ensures
            style == minimal_style(),
    {
        OutputStyle {
            layout: Layout::Plain,
            detail: Detail::Minimal,
            color: ColorMode::NoColor,
            symbols: SymbolSet::NoSymbols,
        }
    }

    /// The grid style.
    pub fn grid() -> (style: Self)
        ensures
            style == grid_style(),
    {
        OutputStyle {
            layout: Layout::Grid,
            detail: Detail::Standard,
            color: ColorMode::NoColor,
            symbols: SymbolSet::Ascii,
        }
    }

    /// The markdown style.
    pub fn markdown() -> (style: Self)
        ensures
            style == markdown_style(),
    {
        OutputStyle {
            layout: Layout::Plain,
            detail: Detail::Standard,
            color: ColorMode::NoColor,
            symbols: SymbolSet::Ascii,
        }
    }

    /// The HTML style.
    pub fn html() -> (style: Self)
        ensures
            style == html_style(),
    {
        OutputStyle {
            layout: Layout::Tree,
            detail: Detail::Standard,
            color: ColorMode::NoColor,
            symbols: SymbolSet::NoSymbols,
        }
    }

    /// The badges style.
    pub fn badges() -> (style: Self)
        ensures
            style == badges_style(),
    {
        OutputStyle {
            layout: Layout::Plain,
            detail: Detail::Standard,
            color: ColorMode::Badges,
            symbols: SymbolSet::Unicode,
        }
    }

    /// The monochrome style.
    pub fn monochrome() -> (style: Self)
        ensures
            style == monochrome_style(),
    {
        OutputStyle {
            layout: Layout::Tree,
            detail: Detail::Standard,
            color: ColorMode::NoColor,
            symbols: SymbolSet::Unicode,
        }
    }
}

/// Resolves a request to a style: picks the preset, then puts in place each
/// aspect that the request chooses by itself.
pub fn resolve_output_style(request: &StyleRequest) -> (style: OutputStyle)
    ensures
        style == resolved_style(*request),
{
    let mut style = if request.tree {
        OutputStyle::tree()
    } else if request.compact {
        OutputStyle::compact()
    } else if request.verbose {
        OutputStyle::verbose()
    } else if request.minimal {
        OutputStyle::minimal()
    } else if request.grid {
        OutputStyle::grid()
    } else if request.markdown {
        OutputStyle::markdown()
    } else if request.html {
        OutputStyle::html()
    } else if request.badges {
        OutputStyle::badges()
    } else if request.monochrome {
        OutputStyle::monochrome()
    } else {
        OutputStyle::default()
    };
    if let Some(layout) = request.layout {
        style.layout = layout;
    }
    if let Some(detail) = request.detail {
        style.detail = detail;
    }
    if let Some(color) = request.color {
        style.color = color;
    }
    if let Some(symbols) = request.symbols {
        style.symbols = symbols;
    }
    style
}

/// The line of a function in a list.
pub open spec fn function_line(detail: Detail, f: FunctionModel) -> Seq<char> {
    match detail {
        Detail::Minimal => "    "@ + f.name + "\n"@,
        Detail::Standard => "    "@ + f.name + " (args: "@ + decimal(f.args.len()) + ")\n"@,
        Detail::Verbose => "    "@ + f.name + " (args: "@ + decimal(f.args.len()) + ", vars: "@
            + decimal(f.variables.len()) + ")\n"@,
    }
}

/// The line of a product type in a list.
pub open spec fn struct_line(detail: Detail, t: StructModel) -> Seq<char> {
    match detail {
        Detail::Minimal => "    "@ + t.name + "\n"@,
        Detail::Standard => "    "@ + t.name + " (fields: "@ + decimal(t.fields.len()) + ")\n"@,
        Detail::Verbose => "    "@ + t.name + " (fields: "@ + decimal(t.fields.len())
            + ", methods: "@ + decimal(t.methods.len()) + ")\n"@,
    }
}

/// The line of a sum type in a list.
pub open spec fn enum_line(detail: Detail, e: EnumModel) -> Seq<char> {
    match detail {
        Detail::Minimal => "    "@ + e.name + "\n"@,
        Detail::Standard => "    "@ + e.name + " (variants: "@ + decimal(e.variants.len())
            + ")\n"@,
        Detail::Verbose => "    "@ + e.name + " (variants: "@ + decimal(e.variants.len())
            + ", methods: "@ + decimal(e.methods.len()) + ")\n"@,
    }
}

/// The names of the local bindings of a function.
pub open spec fn variable_names(f: FunctionModel) -> Seq<Seq<char>> {
    f.variables.map_values(|v: (Seq<char>, Option<Seq<char>>)| v.0)
}

/// What a tree says of a function.
pub open spec fn function_inline(detail: Detail, f: FunctionModel) -> Seq<char> {
    match detail {
        Detail::Minimal => f.name,
        Detail::Standard => f.name + ": args ["@ + joined_with(f.args, ", "@) + "]"@,
        Detail::Verbose => f.name + ": args ["@ + joined_with(f.args, ", "@) + "], variables ["@
            + joined_with(variable_names(f), ", "@) + "]"@,
    }
}

/// What a tree says of a product type.
pub open spec fn struct_inline(detail: Detail, t: StructModel) -> Seq<char> {
    match detail {
        Detail::Minimal => t.name,
        Detail::Standard => t.name + ": fields ["@ + joined_with(t.fields, ", "@) + "]"@,
        Detail::Verbose => t.name + ": fields ["@ + joined_with(t.fields, ", "@)
            + "], methods ["@ + joined_with(t.methods, ", "@) + "]"@,
    }
}

/// What a tree says of a sum type.
pub open spec fn enum_inline(detail: Detail, e: EnumModel) -> Seq<char> {
    match detail {
        Detail::Minimal => e.name,
        Detail::Standard => e.name + ": variants ["@ + joined_with(e.variants, ", "@) + "]"@,
        Detail::Verbose => e.name + ": variants ["@ + joined_with(e.variants, ", "@)
            + "], methods ["@ + joined_with(e.methods, ", "@) + "]"@,
    }
}

/// A text cut to fit into `max` bytes: where it is longer, its first
/// `max - 3` bytes followed by three dots.
pub open spec fn truncated(text: Seq<char>, max: nat) -> Seq<char> {
    let bytes = encode_utf8(text);
    if bytes.len() <= max {
        text
    } else {
        decode_utf8(bytes.subrange(0, max - 3)) + "..."@
    }
}

/// Whether a text can be cut to fit into `max` bytes: it fits already, or
/// the cut falls between two characters.
pub open spec fn can_truncate(text: Seq<char>, max: nat) -> bool {
    let bytes = encode_utf8(text);
    bytes.len() <= max || (max >= 3 && is_char_boundary(bytes, max - 3))
}

/// A section of a page: one kind of declaration.
#[derive(Debug, Clone, Copy, PartialEq, Eq, Structural)]
pub enum Section {
    Functions,
    Structs,
    Enums,
}

/// The heading of a section.
pub open spec fn section_name(section: Section) -> Seq<char> {
    match section {
        Section::Functions => "Functions"@,
        Section::Structs => "Structs"@,
        Section::Enums => "Enums"@,
    }
}

/// The badge of a section.
pub open spec fn section_badge(section: Section) -> Seq<char> {
    match section {
        Section::Functions => "🔧"@,
        Section::Structs => "🏗️"@,
        Section::Enums => "🧩"@,
    }
}

/// What the terminal made of the texts of one file that are written in
/// colour: its path and the headings of its sections. Only a page in the
/// usual colours shows them.
pub struct Painted {
    pub path: Seq<char>,
    pub functions: Seq<char>,
    pub structs: Seq<char>,
    pub enums: Seq<char>,
}

/// The escape sequence that ends a run in colour.
pub open spec fn paint_reset() -> Seq<char> {
    "\x1B[0m"@
}

/// The escape sequence that starts a run in bright blue.
pub open spec fn bright_blue_start() -> Seq<char> {
    "\x1B[94m"@
}

/// The escape sequence that starts a run in bold yellow.
pub open spec fn bold_yellow_start() -> Seq<char> {
    "\x1B[1;33m"@
}

/// Whether `painted` is `text` as a terminal gets it in the colour that
/// `start` switches on: as it is where colours are off, and between `start`
/// and the reset sequence where they are on.
pub open spec fn painted_as(start: Seq<char>, text: Seq<char>, painted: Seq<char>) -> bool {
    painted == text || painted == start + text + paint_reset()
}

/// Whether `painted` holds what the terminal may make of the file `s`: its
/// path in bright blue, unless the path itself holds a reset sequence, and
/// the name of each section in bold yellow.
pub open spec fn painted_for(s: SnapshotModel, painted: Painted) -> bool {
    &&& !contains_text(s.path, paint_reset()) ==> painted_as(
        bright_blue_start(),
        s.path,
        painted.path,
    )
    &&& painted_as(bold_yellow_start(), section_name(Section::Functions), painted.functions)
    &&& painted_as(bold_yellow_start(), section_name(Section::Structs), painted.structs)
    &&& painted_as(bold_yellow_start(), section_name(Section::Enums), painted.enums)
}

/// What stands for the file `s` where nothing is painted: its path and the
/// names of the sections as they are.
pub open spec fn plain_paint(s: SnapshotModel) -> Painted {
    Painted {
        path: s.path,
        functions: section_name(Section::Functions),
        structs: section_name(Section::Structs),
        enums: section_name(Section::Enums),
    }
}

/// A text without an escape character holds no reset sequence.
pub proof fn lemma_plain_text_holds_no_reset(text: Seq<char>)
    requires
        forall|i: int| 0 <= i < text.len() ==> text[i] != '\x1B',
    ensures
        !contains_text(text, paint_reset()),
{
    reveal_strlit("\x1B[0m");
    let reset = paint_reset();
    assert forall|i: int| 0 <= i <= text.len() - reset.len() implies #[trigger] text.subrange(
        i,
        i + reset.len(),
    ) != reset by {
        assert(text.subrange(i, i + reset.len())[0] == text[i]);
        assert(reset[0] == '\x1B');
    }
}

/// The name of a section holds no reset sequence.
pub proof fn lemma_section_name_is_plain(section: Section)
    ensures
        !contains_text(section_name(section), paint_reset()),
{
    reveal_strlit("Functions");
    reveal_strlit("Structs");
    reveal_strlit("Enums");
    lemma_plain_text_holds_no_reset(section_name(section));
}

/// The path of a file as a page shows it: as it is, behind a badge, or as
/// the terminal painted it.
pub open spec fn path_text(color: ColorMode, path: Seq<char>, painted: Seq<char>) -> Seq<char> {
    match color {
        ColorMode::NoColor => path,
        ColorMode::Badges => "📁 "@ + path,
        ColorMode::Standard => painted,
    }
}

/// The heading of a section as a list shows it: as it is, behind a badge,
/// or as the terminal painted it.
pub open spec fn header_text(color: ColorMode, section: Section, painted: Seq<char>) -> Seq<
    char,
> {
    match color {
        ColorMode::NoColor => "  "@ + section_name(section) + ":\n"@,
        ColorMode::Badges => "  "@ + section_badge(section) + " "@ + section_name(section)
            + ":\n"@,
        ColorMode::Standard => "  "@ + painted + ":\n"@,
    }
}

/// The symbol that a tree draws in front of a file.
pub open spec fn branch_symbol(symbols: SymbolSet) -> Seq<char> {
    match symbols {
        SymbolSet::Unicode => "├──"@,
        SymbolSet::Ascii => "|--"@,
        SymbolSet::NoSymbols => ""@,
    }
}

/// The symbol that a tree draws in front of what belongs to a file.
pub open spec fn trunk_symbol(symbols: SymbolSet) -> Seq<char> {
    match symbols {
        SymbolSet::Unicode => "│  "@,
        SymbolSet::Ascii => "|  "@,
        SymbolSet::NoSymbols => "  "@,
    }
}

/// The functions of a file in a list: the heading and a line for each;
/// nothing for a file without functions.
pub open spec fn plain_functions(style: OutputStyle, s: SnapshotModel, painted: Seq<char>) -> Seq<
    char,
> {
    if s.functions.len() == 0 {
        Seq::empty()
    } else {
        header_text(style.color, Section::Functions, painted) + s.functions.map_values(
            |item: FunctionModel| function_line(style.detail, item),
        ).flatten()
    }
}

/// The branch of one of the functions of a file in a tree.
pub open spec fn tree_functions_line(style: OutputStyle, item: FunctionModel) -> Seq<char> {
    trunk_symbol(style.symbols) + "  - "@ + function_inline(style.detail, item) + "\n"@
}

/// The functions of a file in a tree: the heading and a branch for each;
/// nothing for a file without functions.
pub open spec fn tree_functions(style: OutputStyle, s: SnapshotModel) -> Seq<char> {
    if s.functions.len() == 0 {
        Seq::empty()
    } else {
        trunk_symbol(style.symbols) + "  🔧 Functions:\n"@ + s.functions.map_values(
            |item: FunctionModel| tree_functions_line(style, item),
        ).flatten()
    }
}

/// The product types of a file in a list: the heading and a line for each;
/// nothing for a file without product types.
pub open spec fn plain_structs(style: OutputStyle, s: SnapshotModel, painted: Seq<char>) -> Seq<
    char,
> {
    if s.structs.len() == 0 {
        Seq::empty()
    } else {
        header_text(style.color, Section::Structs, painted) + s.structs.map_values(
            |item: StructModel| struct_line(style.detail, item),
        ).flatten()
    }
}

/// The branch of one of the product types of a file in a tree.
pub open spec fn tree_structs_line(style: OutputStyle, item: StructModel) -> Seq<char> {
    trunk_symbol(style.symbols) + "  - "@ + struct_inline(style.detail, item) + "\n"@
}

/// The product types of a file in a tree: the heading and a branch for each;
/// nothing for a file without product types.
pub open spec fn tree_structs(style: OutputStyle, s: SnapshotModel) -> Seq<char> {
    if s.structs.len() == 0 {
        Seq::empty()
    } else {
        trunk_symbol(style.symbols) + "  🏗️ Structs:\n"@ + s.structs.map_values(
            |item: StructModel| tree_structs_line(style, item),
        ).flatten()
    }
}

/// The sum types of a file in a list: the heading and a line for each;
/// nothing for a file without sum types.
pub open spec fn plain_enums(style: OutputStyle, s: SnapshotModel, painted: Seq<char>) -> Seq<
    char,
> {
    if s.enums.len() == 0 {
        Seq::empty()
    } else {
        header_text(style.color, Section::Enums, painted) + s.enums.map_values(
            |item: EnumModel| enum_line(style.detail, item),
        ).flatten()
    }
}

/// The branch of one of the sum types of a file in a tree.
pub open spec fn tree_enums_line(style: OutputStyle, item: EnumModel) -> Seq<char> {
    trunk_symbol(style.symbols) + "  - "@ + enum_inline(style.detail, item) + "\n"@
}

/// The sum types of a file in a tree: the heading and a branch for each;
/// nothing for a file without sum types.
pub open spec fn tree_enums(style: OutputStyle, s: SnapshotModel) -> Seq<char> {
    if s.enums.len() == 0 {
        Seq::empty()
    } else {
        trunk_symbol(style.symbols) + "  🧩 Enums:\n"@ + s.enums.map_values(
            |item: EnumModel| tree_enums_line(style, item),
        ).flatten()
    }
}

/// What a list says of one file: its path, its functions, its product
/// types, its sum types, and an empty line.
pub open spec fn plain_block(style: OutputStyle, s: SnapshotModel, painted: Painted) -> Seq<char> {
    path_text(style.color, s.path, painted.path) + "\n"@ + plain_functions(
        style,
        s,
        painted.functions,
    ) + plain_structs(style, s, painted.structs) + plain_enums(style, s, painted.enums) + "\n"@
}

/// What a tree says of one file: its path, its functions, its product
/// types and its sum types.
pub open spec fn tree_block(style: OutputStyle, s: SnapshotModel, painted: Painted) -> Seq<char> {
    branch_symbol(style.symbols) + " 📄 "@ + path_text(style.color, s.path, painted.path) + "\n"@
        + tree_functions(style, s) + tree_structs(style, s) + tree_enums(style, s)
}

/// The row of one file in a table: its name cut to twenty bytes, and how
/// many functions, product types and sum types it declares, each in a column
/// of its own.
pub open spec fn grid_row(s: SnapshotModel) -> Seq<char> {
    "| "@ + padded(truncated(last_component(s.path), 20), 20) + " | "@ + padded(
        decimal(s.functions.len()),
        8,
    ) + " | "@ + padded(decimal(s.structs.len()), 8) + " | "@ + padded(
        decimal(s.enums.len()),
        8,
    ) + " |\n"@
}

/// The line of one file on a compact page: its name and its counts.
pub open spec fn compact_row(s: SnapshotModel) -> Seq<char> {
    last_component(s.path) + ": f="@ + decimal(s.functions.len()) + " s="@ + decimal(
        s.structs.len(),
    ) + " e="@ + decimal(s.enums.len()) + "\n"@
}

/// The rule between the parts of a table.
pub open spec fn grid_rule() -> Seq<char> {
    "+----------------------+----------+----------+----------+\n"@
}

/// The heading of a table.
pub open spec fn grid_heading() -> Seq<char> {
    "| File                 | Functions| Structs  | Enums    |\n"@
}

/// What a page says of the file at `i`.
pub open spec fn block(
    style: OutputStyle,
    snapshots: Seq<SnapshotModel>,
    painted: Seq<Painted>,
    i: int,
) -> Seq<char> {
    match style.layout {
        Layout::Plain => plain_block(style, snapshots[i], painted[i]),
        Layout::Tree => tree_block(style, snapshots[i], painted[i]),
        Layout::Grid => grid_row(snapshots[i]),
        Layout::Compact => compact_row(snapshots[i]),
    }
}

/// What a page says of each file, in order.
pub open spec fn blocks(
    style: OutputStyle,
    snapshots: Seq<SnapshotModel>,
    painted: Seq<Painted>,
) -> Seq<Seq<char>> {
    Seq::new(snapshots.len(), |i: int| block(style, snapshots, painted, i))
}

/// The page for a list of files in a style: what it says of each file, in
/// order; for a table, between a heading and a closing rule.
pub open spec fn page(
    style: OutputStyle,
    snapshots: Seq<SnapshotModel>,
    painted: Seq<Painted>,
) -> Seq<char> {
    match style.layout {
        Layout::Grid => grid_rule() + grid_heading() + grid_rule() + blocks(
            style,
            snapshots,
            painted,
        ).flatten() + grid_rule(),
        _ => blocks(style, snapshots, painted).flatten(),
    }
}

/// Whether every file of a list has a name that a table can show: one that
/// fits into twenty bytes or can be cut after seventeen.
pub open spec fn fits_grid(snapshots: Seq<SnapshotModel>) -> bool {
    forall|i: int|
        0 <= i < snapshots.len() ==> can_truncate(
            last_component((#[trigger] snapshots[i]).path),
            20,
        )
}

/// Whether a page can be laid out for a list of files: any page but a table
/// can; a table can where the name of every file can be shown.
pub open spec fn can_lay_out(style: OutputStyle, snapshots: Seq<SnapshotModel>) -> bool {
    style.layout == Layout::Grid ==> fits_grid(snapshots)
}

/// Nothing painted, for `count` files.
pub open spec fn unpainted(count: nat) -> Seq<Painted> {
    Seq::new(
        count,
        |i: int|
            Painted {
                path: Seq::empty(),
                functions: Seq::empty(),
                structs: Seq::empty(),
                enums: Seq::empty(),
            },
    )
}

/// A page that is not in the usual colours shows nothing that the terminal
/// painted: it is the same whatever was painted.
pub proof fn lemma_page_without_paint(
    style: OutputStyle,
    snapshots: Seq<SnapshotModel>,
    first: Seq<Painted>,
    second: Seq<Painted>,
)
    requires
        style.color != ColorMode::Standard,
    ensures
        page(style, snapshots, first) == page(style, snapshots, second),
{
    assert(blocks(style, snapshots, first) =~= blocks(style, snapshots, second));
}

/// `colored::Colorize::bright_blue`, written out: the text, set in bright
/// blue where the terminal and the environment call for colours. A text that
/// holds no reset sequence comes back as it is where colours are off, and
/// between the sequence that starts bright blue and the reset sequence where
/// they are on.
#[verifier::external_body]
fn paint_bright_blue(text: &str) -> (painted: String)
    ensures
        !contains_text(text@, paint_reset()) ==> painted_as(bright_blue_start(), text@, painted@),
{
    text.bright_blue().to_string()
}

/// `colored::Colorize::yellow` and `colored::Colorize::bold`, written out:
/// the text, set in bold yellow where the terminal and the environment call
/// for colours. A text that holds no reset sequence comes back as it is where
/// colours are off, and between the sequence that starts bold yellow and the
/// reset sequence where they are on.
#[verifier::external_body]
fn paint_bold_yellow(text: &str) -> (painted: String)
    ensures
        !contains_text(text@, paint_reset()) ==> painted_as(bold_yellow_start(), text@, painted@),
{
    text.yellow().bold().to_string()
}

/// Lays out pages in one style.
#[derive(Debug, Clone, Copy)]
pub struct OutputRenderer {
    style: OutputStyle,
}

impl View for OutputRenderer {
    type V = OutputStyle;

    /// The style of the renderer.
    closed spec fn view(&self) -> OutputStyle {
        self.style
    }
}

impl OutputRenderer {
    /// A renderer for `style`.
    pub fn new(style: OutputStyle) -> (renderer: Self)
        ensures
            renderer@ == style,
    {
        OutputRenderer { style }
    }

    /// Writes the line of a function in a list.
    fn format_function(&self, func: &FunctionSnapshot) -> (line: String)
        ensures
            line@ == function_line(self@.detail, func@),
    {
        let mut line = "    ".to_owned();
        line.append(func.name.as_str());
        match self.style.detail {
            Detail::Minimal => {
                line.append("\n");
            },
            Detail::Standard => {
                line.append(" (args: ");
                line.append(decimal_text(func.args.len() as u128).as_str());
                line.append(")\n");
            },
            Detail::Verbose => {
                line.append(" (args: ");
                line.append(decimal_text(func.args.len() as u128).as_str());
                line.append(", vars: ");
                line.append(decimal_text(func.variables.len() as u128).as_str());
                line.append(")\n");
            },
        }
        line
    }

    /// Writes the line of a product type in a list.
    fn format_struct(&self, strct: &StructSnapshot) -> (line: String)
        ensures
            line@ == struct_line(self@.detail, strct@),
    {
        let mut line = "    ".to_owned();
        line.append(strct.name.as_str());
        match self.style.detail {
            Detail::Minimal => {
                line.append("\n");
            },
            Detail::Standard => {
                line.append(" (fields: ");
                line.append(decimal_text(strct.fields.len() as u128).as_str());
                line.append(")\n");
            },
            Detail::Verbose => {
                line.append(" (fields: ");
                line.append(decimal_text(strct.fields.len() as u128).as_str());
                line.append(", methods: ");
                line.append(decimal_text(strct.methods.len() as u128).as_str());
                line.append(")\n");
            },
        }
        line
    }

    /// Writes the line of a sum type in a list.
    fn format_enum(&self, enm: &EnumSnapshot) -> (line: String)
        ensures
            line@ == enum_line(self@.detail, enm@),
    {
        let mut line = "    ".to_owned();
        line.append(enm.name.as_str());
        match self.style.detail {
            Detail::Minimal => {
                line.append("\n");
            },
            Detail::Standard => {
                line.append(" (variants: ");
                line.append(decimal_text(enm.variants.len() as u128).as_str());
                line.append(")\n");
            },
            Detail::Verbose => {
                line.append(" (variants: ");
                line.append(decimal_text(enm.variants.len() as u128).as_str());
                line.append(", methods: ");
                line.append(decimal_text(enm.methods.len() as u128).as_str());
                line.append(")\n");
            },
        }
        line
    }

    /// Writes what a tree says of a function.
    fn format_function_inline(&self, func: &FunctionSnapshot) -> (text: String)
        ensures
            text@ == function_inline(self@.detail, func@),
    {
        let mut text = func.name.clone();
        match self.style.detail {
            Detail::Minimal => {},
            Detail::Standard => {
                text.append(": args [");
                text.append(join_texts(&func.args, ", ").as_str());
                text.append("]");
            },
            Detail::Verbose => {
                let mut names: Vec<String> = Vec::new();
                let mut i: usize = 0;
                while i < func.variables.len()
                    invariant
                        i <= func.variables.len(),
                        names.deep_view() =~= variable_names(func@).take(i as int),
                    decreases func.variables.len() - i,
                {
                    let ghost before = names.deep_view();
                    names.push(func.variables[i].0.clone());
                    proof {
                        let all = variable_names(func@);
                        assert(names.deep_view() =~= before.push(all[i as int]));
                    }
                    i += 1;
                }
                assert(names.deep_view() =~= variable_names(func@));
                text.append(": args [");
                text.append(join_texts(&func.args, ", ").as_str());
                text.append("], variables [");
                text.append(join_texts(&names, ", ").as_str());
                text.append("]");
            },
        }
        text
    }

    /// Writes what a tree says of a product type.
    fn format_struct_inline(&self, strct: &StructSnapshot) -> (text: String)
        ensures
            text@ == struct_inline(self@.detail, strct@),
    {
        let mut text = strct.name.clone();
        match self.style.detail {
            Detail::Minimal => {},
            Detail::Standard => {
                text.append(": fields [");
                text.append(join_texts(&strct.fields, ", ").as_str());
                text.append("]");
            },
            Detail::Verbose => {
                text.append(": fields [");
                text.append(join_texts(&strct.fields, ", ").as_str());
                text.append("], methods [");
                text.append(join_texts(&strct.methods, ", ").as_str());
                text.append("]");
            },
        }
        text
    }

    /// Writes what a tree says of a sum type.
    fn format_enum_inline(&self, enm: &EnumSnapshot) -> (text: String)
        ensures
            text@ == enum_inline(self@.detail, enm@),
    {
        let mut text = enm.name.clone();
        match self.style.detail {
            Detail::Minimal => {},
            Detail::Standard => {
                text.append(": variants [");
                text.append(join_texts(&enm.variants, ", ").as_str());
                text.append("]");
            },
            Detail::Verbose => {
                text.append(": variants [");
                text.append(join_texts(&enm.variants, ", ").as_str());
                text.append("], methods [");
                text.append(join_texts(&enm.methods, ", ").as_str());
                text.append("]");
            },
        }
        text
    }

    /// Cuts a text to fit into `max_len` bytes.
    fn truncate(&self, s: &str, max_len: usize) -> (text: String)
        requires
            can_truncate(s@, max_len as nat),
        ensures
            text@ == truncated(s@, max_len as nat),
    {
        if s.as_bytes().len() <= max_len {
            s.to_owned()
        } else {
            let (head, _) = s.split_at(max_len - 3);
            proof {
                vstd::utf8::encode_utf8_decode_utf8(head@);
            }
            let mut text = head.to_owned();
            text.append("...");
            text
        }
    }

    /// Writes the path of a file as a page shows it.
    fn format_path(&self, path: &str) -> (text: String)
        ensures
            text@ == path_text(self@.color, path@, text@),
            self@.color == ColorMode::Standard && !contains_text(path@, paint_reset())
                ==> painted_as(bright_blue_start(), path@, text@),
    {
        match self.style.color {
            ColorMode::Standard => paint_bright_blue(path),
            ColorMode::Badges => {
                let mut text = "📁 ".to_owned();
                text.append(path);
                text
            },
            ColorMode::NoColor => path.to_owned(),
        }
    }

    /// Writes the heading of a section as a list shows it. Hands out as well
    /// what the terminal made of the name.
    fn format_section_header(&self, section: Section) -> (r: (String, Ghost<Seq<char>>))
        ensures
            r.0@ == header_text(self@.color, section, r.1@),
            painted_as(bold_yellow_start(), section_name(section), r.1@),
    {
        let name = match section {
            Section::Functions => "Functions",
            Section::Structs => "Structs",
            Section::Enums => "Enums",
        };
        proof {
            lemma_section_name_is_plain(section);
        }
        let mut text = "  ".to_owned();
        match self.style.color {
            ColorMode::Standard => {
                let painted = paint_bold_yellow(name);
                text.append(painted.as_str());
                text.append(":\n");
                (text, Ghost(painted@))
            },
            ColorMode::Badges => {
                let icon = match section {
                    Section::Functions => "🔧",
                    Section::Structs => "🏗️",
                    Section::Enums => "🧩",
                };
                text.append(icon);
                text.append(" ");
                text.append(name);
                text.append(":\n");
                (text, Ghost(name@))
            },
            ColorMode::NoColor => {
                text.append(name);
                text.append(":\n");
                (text, Ghost(name@))
            },
        }
    }

    /// Writes the symbol that a tree draws in front of a file.
    fn branch(&self) -> (symbol: &'static str)
        ensures
            symbol@ == branch_symbol(self@.symbols),
    {
        match self.style.symbols {
            SymbolSet::Unicode => "├──",
            SymbolSet::Ascii => "|--",
            SymbolSet::NoSymbols => "",
        }
    }

    /// Writes the symbol that a tree draws in front of what belongs to a
    /// file.
    fn trunk(&self) -> (symbol: &'static str)
        ensures
            symbol@ == trunk_symbol(self@.symbols),
    {
        match self.style.symbols {
            SymbolSet::Unicode => "│  ",
            SymbolSet::Ascii => "|  ",
            SymbolSet::NoSymbols => "  ",
        }
    }

    /// Appends the functions of a file as a list shows them. Hands out what
    /// the terminal made of the heading.
    fn plain_functions(&self, snapshot: &RustFileSnapshot, out: &mut String) -> (painted: Ghost<
        Seq<char>,
    >)
        ensures
            final(out)@ == old(out)@ + plain_functions(self@, snapshot@, painted@),
            painted_as(bold_yellow_start(), section_name(Section::Functions), painted@),
    {
        if snapshot.functions.len() == 0 {
            return Ghost(section_name(Section::Functions));
        }
        let (mut part, painted) = self.format_section_header(Section::Functions);
        let ghost base = part@;
        let ghost all = snapshot@.functions;
        let ghost detail = self@.detail;
        let ghost each = |item: FunctionModel| function_line(detail, item);
        let mut i: usize = 0;
        proof {
            lemma_flat_map_none(all, each);
        }
        while i < snapshot.functions.len()
            invariant
                i <= snapshot.functions.len(),
                all == snapshot@.functions,
                detail == self@.detail,
                each == |item: FunctionModel| function_line(detail, item),
                part@ == base + all.take(i as int).map_values(each).flatten(),
            decreases snapshot.functions.len() - i,
        {
            proof {
                lemma_flat_map_step(all, each, i as int);
            }
            let line = self.format_function(&snapshot.functions[i]);
            part.append(line.as_str());
            i += 1;
        }
        out.append(part.as_str());
        painted
    }

    /// Appends the functions of a file as a tree shows them.
    fn tree_functions(&self, snapshot: &RustFileSnapshot, out: &mut String)
        ensures
            final(out)@ == old(out)@ + tree_functions(self@, snapshot@),
    {
        if snapshot.functions.len() == 0 {
            return ;
        }
        let mut part = self.trunk().to_owned();
        part.append("  🔧 Functions:\n");
        let ghost base = part@;
        let ghost all = snapshot@.functions;
        let ghost style = self@;
        let ghost each = |item: FunctionModel| tree_functions_line(style, item);
        let mut i: usize = 0;
        proof {
            lemma_flat_map_none(all, each);
        }
        while i < snapshot.functions.len()
            invariant
                i <= snapshot.functions.len(),
                all == snapshot@.functions,
                style == self@,
                each == |item: FunctionModel| tree_functions_line(style, item),
                part@ == base + all.take(i as int).map_values(each).flatten(),
            decreases snapshot.functions.len() - i,
        {
            proof {
                lemma_flat_map_step(all, each, i as int);
            }
            let mut line = self.trunk().to_owned();
            line.append("  - ");
            line.append(self.format_function_inline(&snapshot.functions[i]).as_str());
            line.append("\n");
            part.append(line.as_str());
            i += 1;
        }
        out.append(part.as_str());
    }

    /// Appends the product types of a file as a list shows them. Hands out what
    /// the terminal made of the heading.
    fn plain_structs(&self, snapshot: &RustFileSnapshot, out: &mut String) -> (painted: Ghost<
        Seq<char>,
    >)
        ensures
            final(out)@ == old(out)@ + plain_structs(self@, snapshot@, painted@),
            painted_as(bold_yellow_start(), section_name(Section::Structs), painted@),
    {
        if snapshot.structs.len() == 0 {
            return Ghost(section_name(Section::Structs));
        }
        let (mut part, painted) = self.format_section_header(Section::Structs);
        let ghost base = part@;
        let ghost all = snapshot@.structs;
        let ghost detail = self@.detail;
        let ghost each = |item: StructModel| struct_line(detail, item);
        let mut i: usize = 0;
        proof {
            lemma_flat_map_none(all, each);
        }
        while i < snapshot.structs.len()
            invariant
                i <= snapshot.structs.len(),
                all == snapshot@.structs,
                detail == self@.detail,
                each == |item: StructModel| struct_line(detail, item),
                part@ == base + all.take(i as int).map_values(each).flatten(),
            decreases snapshot.structs.len() - i,
        {
            proof {
                lemma_flat_map_step(all, each, i as int);
            }
            let line = self.format_struct(&snapshot.structs[i]);
            part.append(line.as_str());
            i += 1;
        }
        out.append(part.as_str());
        painted
    }

    /// Appends the product types of a file as a tree shows them.
    fn tree_structs(&self, snapshot: &RustFileSnapshot, out: &mut String)
        ensures
            final(out)@ == old(out)@ + tree_structs(self@, snapshot@),
    {
        if snapshot.structs.len() == 0 {
            return ;
        }
        let mut part = self.trunk().to_owned();
        part.append("  🏗️ Structs:\n");
        let ghost base = part@;
        let ghost all = snapshot@.structs;
        let ghost style = self@;
        let ghost each = |item: StructModel| tree_structs_line(style, item);
        let mut i: usize = 0;
        proof {
            lemma_flat_map_none(all, each);
        }
        while i < snapshot.structs.len()
            invariant
                i <= snapshot.structs.len(),
                all == snapshot@.structs,
                style == self@,
                each == |item: StructModel| tree_structs_line(style, item),
                part@ == base + all.take(i as int).map_values(each).flatten(),
            decreases snapshot.structs.len() - i,
        {
            proof {
                lemma_flat_map_step(all, each, i as int);
            }
            let mut line = self.trunk().to_owned();
            line.append("  - ");
            line.append(self.format_struct_inline(&snapshot.structs[i]).as_str());
            line.append("\n");
            part.append(line.as_str());
            i += 1;
        }
        out.append(part.as_str());
    }

    /// Appends the sum types of a file as a list shows them. Hands out what
    /// the terminal made of the heading.
    fn plain_enums(&self, snapshot: &RustFileSnapshot, out: &mut String) -> (painted: Ghost<
        Seq<char>,
    >)
        ensures
            final(out)@ == old(out)@ + plain_enums(self@, snapshot@, painted@),
            painted_as(bold_yellow_start(), section_name(Section::Enums), painted@),
    {
        if snapshot.enums.len() == 0 {
            return Ghost(section_name(Section::Enums));
        }
        let (mut part, painted) = self.format_section_header(Section::Enums);
        let ghost base = part@;
        let ghost all = snapshot@.enums;
        let ghost detail = self@.detail;
        let ghost each = |item: EnumModel| enum_line(detail, item);
        let mut i: usize = 0;
        proof {
            lemma_flat_map_none(all, each);
        }
        while i < snapshot.enums.len()
            invariant
                i <= snapshot.enums.len(),
                all == snapshot@.enums,
                detail == self@.detail,
                each == |item: EnumModel| enum_line(detail, item),
                part@ == base + all.take(i as int).map_values(each).flatten(),
            decreases snapshot.enums.len() - i,
        {
            proof {
                lemma_flat_map_step(all, each, i as int);
            }
            let line = self.format_enum(&snapshot.enums[i]);
            part.append(line.as_str());
            i += 1;
        }
        out.append(part.as_str());
        painted
    }

    /// Appends the sum types of a file as a tree shows them.
    fn tree_enums(&self, snapshot: &RustFileSnapshot, out: &mut String)
        ensures
            final(out)@ == old(out)@ + tree_enums(self@, snapshot@),
    {
        if snapshot.enums.len() == 0 {
            return ;
        }
        let mut part = self.trunk().to_owned();
        part.append("  🧩 Enums:\n");
        let ghost base = part@;
        let ghost all = snapshot@.enums;
        let ghost style = self@;
        let ghost each = |item: EnumModel| tree_enums_line(style, item);
        let mut i: usize = 0;
        proof {
            lemma_flat_map_none(all, each);
        }
        while i < snapshot.enums.len()
            invariant
                i <= snapshot.enums.len(),
                all == snapshot@.enums,
                style == self@,
                each == |item: EnumModel| tree_enums_line(style, item),
                part@ == base + all.take(i as int).map_values(each).flatten(),
            decreases snapshot.enums.len() - i,
        {
            proof {
                lemma_flat_map_step(all, each, i as int);
            }
            let mut line = self.trunk().to_owned();
            line.append("  - ");
            line.append(self.format_enum_inline(&snapshot.enums[i]).as_str());
            line.append("\n");
            part.append(line.as_str());
            i += 1;
        }
        out.append(part.as_str());
    }

    /// Writes what a list says of one file. Hands out what the terminal
    /// painted.
    fn plain_block(&self, snapshot: &RustFileSnapshot) -> (r: (String, Ghost<Painted>))
        ensures
            r.0@ == plain_block(self@, snapshot@, r.1@),
            painted_for(snapshot@, r.1@),
    {
        let path = self.format_path(snapshot.path.as_str());
        let mut text = path.clone();
        text.append("\n");
        let functions = self.plain_functions(snapshot, &mut text);
        let structs = self.plain_structs(snapshot, &mut text);
        let enums = self.plain_enums(snapshot, &mut text);
        text.append("\n");
        let ghost painted = Painted {
            path: if self@.color == ColorMode::Standard {
                path@
            } else {
                snapshot@.path
            },
            functions: functions@,
            structs: structs@,
            enums: enums@,
        };
        (text, Ghost(painted))
    }

    /// Writes what a tree says of one file. Hands out what the terminal
    /// painted.
    fn tree_block(&self, snapshot: &RustFileSnapshot) -> (r: (String, Ghost<Painted>))
        ensures
            r.0@ == tree_block(self@, snapshot@, r.1@),
            painted_for(snapshot@, r.1@),
    {
        let path = self.format_path(snapshot.path.as_str());
        let mut text = self.branch().to_owned();
        text.append(" 📄 ");
        text.append(path.as_str());
        text.append("\n");
        self.tree_functions(snapshot, &mut text);
        self.tree_structs(snapshot, &mut text);
        self.tree_enums(snapshot, &mut text);
        let ghost painted = Painted {
            path: if self@.color == ColorMode::Standard {
                path@
            } else {
                snapshot@.path
            },
            ..plain_paint(snapshot@)
        };
        (text, Ghost(painted))
    }

    /// Writes the row of one file in a table.
    fn grid_row(&self, snapshot: &RustFileSnapshot) -> (text: String)
        requires
            can_truncate(last_component(snapshot@.path), 20),
        ensures
            text@ == grid_row(snapshot@),
    {
        let name = file_name(snapshot.path.as_str());
        let shown = self.truncate(name.as_str(), 20);
        let mut text = "| ".to_owned();
        text.append(pad_right(shown.as_str(), 20).as_str());
        text.append(" | ");
        text.append(
            pad_right(decimal_text(snapshot.functions.len() as u128).as_str(), 8).as_str(),
        );
        text.append(" | ");
        text.append(pad_right(decimal_text(snapshot.structs.len() as u128).as_str(), 8).as_str());
        text.append(" | ");
        text.append(pad_right(decimal_text(snapshot.enums.len() as u128).as_str(), 8).as_str());
        text.append(" |\n");
        text
    }

    /// Writes the line of one file on a compact page.
    fn compact_row(&self, snapshot: &RustFileSnapshot) -> (text: String)
        ensures
            text@ == compact_row(snapshot@),
    {
        let mut text = file_name(snapshot.path.as_str());
        text.append(": f=");
        text.append(decimal_text(snapshot.functions.len() as u128).as_str());
        text.append(" s=");
        text.append(decimal_text(snapshot.structs.len() as u128).as_str());
        text.append(" e=");
        text.append(decimal_text(snapshot.enums.len() as u128).as_str());
        text.append("\n");
        text
    }

    /// Writes what the page says of each file, in order. Hands out what the
    /// terminal painted.
    fn render_blocks(&self, snapshots: &[RustFileSnapshot]) -> (r: (String, Ghost<Seq<Painted>>))
        requires
            can_lay_out(self@, snapshots.deep_view()),
        ensures
            r.1@.len() == snapshots.len(),
            r.0@ == blocks(self@, snapshots.deep_view(), r.1@).flatten(),
            forall|k: int|
                0 <= k < snapshots.len() ==> painted_for(
                    #[trigger] snapshots.deep_view()[k],
                    r.1@[k],
                ),
    {
        let ghost all = snapshots.deep_view();
        let ghost style = self@;
        let mut text = String::new();
        let ghost mut painted: Seq<Painted> = Seq::empty();
        let ghost mut done: Seq<Seq<char>> = Seq::empty();
        let mut i: usize = 0;
        while i < snapshots.len()
            invariant
                i <= snapshots.len(),
                all == snapshots.deep_view(),
                style == self@,
                can_lay_out(style, all),
                painted.len() == i,
                done.len() == i,
                forall|k: int| 0 <= k < i ==> done[k] == block(style, all, painted, k),
                forall|k: int| 0 <= k < i ==> painted_for(#[trigger] all[k], painted[k]),
                text@ == done.flatten(),
            decreases snapshots.len() - i,
        {
            let snapshot = &snapshots[i];
            let ghost earlier = done;
            proof {
                assert(all[i as int] == snapshot@);
            }
            let part = match self.style.layout {
                Layout::Plain => {
                    let (part, Ghost(p)) = self.plain_block(snapshot);
                    proof {
                        painted = painted.push(p);
                    }
                    part
                },
                Layout::Tree => {
                    let (part, Ghost(p)) = self.tree_block(snapshot);
                    proof {
                        painted = painted.push(p);
                    }
                    part
                },
                Layout::Grid => {
                    proof {
                        painted = painted.push(plain_paint(snapshot@));
                    }
                    self.grid_row(snapshot)
                },
                Layout::Compact => {
                    proof {
                        painted = painted.push(plain_paint(snapshot@));
                    }
                    self.compact_row(snapshot)
                },
            };
            text.append(part.as_str());
            proof {
                done = done.push(part@);
                assert(done.take(i as int) =~= earlier);
                assert(done.take(i as int + 1) =~= done);
                lemma_flatten_step(done, i as int);
                assert forall|k: int| 0 <= k < i + 1 implies done[k] == block(
                    style,
                    all,
                    painted,
                    k,
                ) by {}
            }
            i += 1;
        }
        assert(done =~= blocks(style, all, painted));
        (text, Ghost(painted))
    }

    /// Tells whether a page can be laid out for a list of files: any page
    /// but a table can; a table can where the name of every file fits into
    /// twenty bytes or can be cut after seventeen.
    pub fn can_render(&self, snapshots: &[RustFileSnapshot]) -> (can: bool)
        ensures
            can == can_lay_out(self@, snapshots.deep_view()),
    {
        match self.style.layout {
            Layout::Grid => {},
            _ => {
                return true;
            },
        }
        let ghost all = snapshots.deep_view();
        let mut i: usize = 0;
        while i < snapshots.len()
            invariant
                i <= snapshots.len(),
                all == snapshots.deep_view(),
                self@.layout == Layout::Grid,
                forall|k: int|
                    0 <= k < i ==> can_truncate(last_component((#[trigger] all[k]).path), 20),
            decreases snapshots.len() - i,
        {
            let name = file_name(snapshots[i].path.as_str());
            let shown = name.as_str();
            proof {
                assert(all[i as int] == snapshots[i as int]@);
            }
            if shown.as_bytes().len() > 20 && !shown.is_char_boundary(17) {
                return false;
            }
            i += 1;
        }
        true
    }

    /// Lays out the page for a list of files in the style of the renderer.
    /// A page in the usual colours shows the path of each file, and in a
    /// list the headings of the sections, as the terminal painted them; any
    /// other page is told to the letter.
    pub fn render(&self, snapshots: &[RustFileSnapshot]) -> (text: String)
        requires
            can_lay_out(self@, snapshots.deep_view()),
        ensures
            exists|painted: Seq<Painted>|
                {
                    &&& painted.len() == snapshots.len()
                    &&& forall|k: int|
                        0 <= k < snapshots.len() ==> painted_for(
                            #[trigger] snapshots.deep_view()[k],
                            painted[k],
                        )
                    &&& text@ == #[trigger] page(self@, snapshots.deep_view(), painted)
                },
            self@.color != ColorMode::Standard ==> text@ == page(
                self@,
                snapshots.deep_view(),
                unpainted(snapshots.len() as nat),
            ),
    {
        let (text, Ghost(painted)) = match self.style.layout {
            Layout::Plain => self.render_plain(snapshots),
            Layout::Tree => self.render_tree(snapshots),
            Layout::Grid => self.render_grid(snapshots),
            Layout::Compact => self.render_compact(snapshots),
        };
        proof {
            if self@.color != ColorMode::Standard {
                lemma_page_without_paint(
                    self@,
                    snapshots.deep_view(),
                    painted,
                    unpainted(snapshots.len() as nat),
                );
            }
        }
        text
    }

    /// Lays out a list: what it says of each file, in order.
    fn render_plain(&self, snapshots: &[RustFileSnapshot]) -> (r: (String, Ghost<Seq<Painted>>))
        requires
            self@.layout == Layout::Plain,
        ensures
            r.1@.len() == snapshots.len(),
            r.0@ == page(self@, snapshots.deep_view(), r.1@),
            forall|k: int|
                0 <= k < snapshots.len() ==> painted_for(
                    #[trigger] snapshots.deep_view()[k],
                    r.1@[k],
                ),
    {
        self.render_blocks(snapshots)
    }

    /// Lays out a tree: what it says of each file, in order.
    fn render_tree(&self, snapshots: &[RustFileSnapshot]) -> (r: (String, Ghost<Seq<Painted>>))
        requires
            self@.layout == Layout::Tree,
        ensures
            r.1@.len() == snapshots.len(),
            r.0@ == page(self@, snapshots.deep_view(), r.1@),
            forall|k: int|
                0 <= k < snapshots.len() ==> painted_for(
                    #[trigger] snapshots.deep_view()[k],
                    r.1@[k],
                ),
    {
        self.render_blocks(snapshots)
    }

    /// Lays out a table: a heading, the row of each file, in order, and a
    /// closing rule.
    fn render_grid(&self, snapshots: &[RustFileSnapshot]) -> (r: (String, Ghost<Seq<Painted>>))
        requires
            self@.layout == Layout::Grid,
            fits_grid(snapshots.deep_view()),
        ensures
            r.1@.len() == snapshots.len(),
            r.0@ == page(self@, snapshots.deep_view(), r.1@),
            forall|k: int|
                0 <= k < snapshots.len() ==> painted_for(
                    #[trigger] snapshots.deep_view()[k],
                    r.1@[k],
                ),
    {
        let mut text = "+----------------------+----------+----------+----------+\n".to_owned();
        text.append("| File                 | Functions| Structs  | Enums    |\n");
        text.append("+----------------------+----------+----------+----------+\n");
        let (rows, painted) = self.render_blocks(snapshots);
        text.append(rows.as_str());
        text.append("+----------------------+----------+----------+----------+\n");
        (text, painted)
    }

    /// Lays out a compact page: the line of each file, in order.
    fn render_compact(&self, snapshots: &[RustFileSnapshot]) -> (r: (String, Ghost<Seq<Painted>>))
        requires
            self@.layout == Layout::Compact,
        ensures
            r.1@.len() == snapshots.len(),
            r.0@ == page(self@, snapshots.deep_view(), r.1@),
            forall|k: int|
                0 <= k < snapshots.len() ==> painted_for(
                    #[trigger] snapshots.deep_view()[k],
                    r.1@[k],
                ),
    {
        self.render_blocks(snapshots)
    }
}

} // verus!
