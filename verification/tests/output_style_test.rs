use furnace::ai_linting::AIProvider;
use furnace::output::{
    resolve_output_style, ColorMode, Detail, Layout, OutputStyle, StyleRequest, SymbolSet,
};

fn request() -> StyleRequest {
    StyleRequest {
        plain: false,
        tree: false,
        compact: false,
        verbose: false,
        minimal: false,
        grid: false,
        markdown: false,
        html: false,
        badges: false,
        monochrome: false,
        layout: None,
        detail: None,
        color: None,
        symbols: None,
    }
}

fn style(layout: Layout, detail: Detail, color: ColorMode, symbols: SymbolSet) -> OutputStyle {
    OutputStyle { layout, detail, color, symbols }
}

#[test]
fn presets() {
    assert_eq!(
        OutputStyle::default(),
        style(Layout::Plain, Detail::Standard, ColorMode::NoColor, SymbolSet::NoSymbols)
    );
    assert_eq!(
        OutputStyle::tree(),
        style(Layout::Tree, Detail::Standard, ColorMode::Standard, SymbolSet::Unicode)
    );
    assert_eq!(
        OutputStyle::compact(),
        style(Layout::Compact, Detail::Minimal, ColorMode::NoColor, SymbolSet::NoSymbols)
    );
    assert_eq!(
        OutputStyle::verbose(),
        style(Layout::Tree, Detail::Verbose, ColorMode::Standard, SymbolSet::Unicode)
    );
    assert_eq!(
        OutputStyle::minimal(),
        style(Layout::Plain, Detail::Minimal, ColorMode::NoColor, SymbolSet::NoSymbols)
    );
    assert_eq!(
        OutputStyle::grid(),
        style(Layout::Grid, Detail::Standard, ColorMode::NoColor, SymbolSet::Ascii)
    );
    assert_eq!(
        OutputStyle::markdown(),
        style(Layout::Plain, Detail::Standard, ColorMode::NoColor, SymbolSet::Ascii)
    );
    assert_eq!(
        OutputStyle::html(),
        style(Layout::Tree, Detail::Standard, ColorMode::NoColor, SymbolSet::NoSymbols)
    );
    assert_eq!(
        OutputStyle::badges(),
        style(Layout::Plain, Detail::Standard, ColorMode::Badges, SymbolSet::Unicode)
    );
    assert_eq!(
        OutputStyle::monochrome(),
        style(Layout::Tree, Detail::Standard, ColorMode::NoColor, SymbolSet::Unicode)
    );
}

#[test]
fn no_flag_means_plain() {
    assert_eq!(resolve_output_style(&request()), OutputStyle::default());
    let mut r = request();
    r.plain = true;
    assert_eq!(resolve_output_style(&r), OutputStyle::default());
}

#[test]
fn each_flag_picks_its_preset() {
    let mut r = request();
    r.tree = true;
    assert_eq!(resolve_output_style(&r), OutputStyle::tree());
    let mut r = request();
    r.compact = true;
    assert_eq!(resolve_output_style(&r), OutputStyle::compact());
    let mut r = request();
    r.verbose = true;
    assert_eq!(resolve_output_style(&r), OutputStyle::verbose());
    let mut r = request();
    r.minimal = true;
    assert_eq!(resolve_output_style(&r), OutputStyle::minimal());
    let mut r = request();
    r.grid = true;
    assert_eq!(resolve_output_style(&r), OutputStyle::grid());
    let mut r = request();
    r.markdown = true;
    assert_eq!(resolve_output_style(&r), OutputStyle::markdown());
    let mut r = request();
    r.html = true;
    assert_eq!(resolve_output_style(&r), OutputStyle::html());
    let mut r = request();
    r.badges = true;
    assert_eq!(resolve_output_style(&r), OutputStyle::badges());
    let mut r = request();
    r.monochrome = true;
    assert_eq!(resolve_output_style(&r), OutputStyle::monochrome());
}

#[test]
fn earlier_flags_win() {
    let mut r = request();
    r.monochrome = true;
    r.badges = true;
    r.plain = true;
    assert_eq!(resolve_output_style(&r), OutputStyle::badges());
    r.grid = true;
    r.markdown = true;
    assert_eq!(resolve_output_style(&r), OutputStyle::grid());
    r.compact = true;
    r.verbose = true;
    assert_eq!(resolve_output_style(&r), OutputStyle::compact());
    r.tree = true;
    assert_eq!(resolve_output_style(&r), OutputStyle::tree());
}

#[test]
fn single_aspects_replace_the_presets() {
    let mut r = request();
    r.tree = true;
    r.detail = Some(Detail::Minimal);
    assert_eq!(
        resolve_output_style(&r),
        style(Layout::Tree, Detail::Minimal, ColorMode::Standard, SymbolSet::Unicode)
    );
    r.layout = Some(Layout::Grid);
    r.color = Some(ColorMode::Badges);
    r.symbols = Some(SymbolSet::Ascii);
    assert_eq!(
        resolve_output_style(&r),
        style(Layout::Grid, Detail::Minimal, ColorMode::Badges, SymbolSet::Ascii)
    );
}

#[test]
fn providers_hold_their_model() {
    let provider = AIProvider::OpenAI { model: "gpt-4".to_string() };
    assert_eq!(provider.clone(), provider);
    assert_ne!(provider, AIProvider::Google { model: "gpt-4".to_string() });
}
