use lscolors::{FontStyle, Style};
use termcolor::Color;
use tre_output::alias::{
    alias_files, cmd_alias_line, cmd_alias_lines, posix_alias_line, posix_alias_lines,
    powershell_alias_line, powershell_alias_lines, AliasConfig, Platform,
};
use tre_output::emit::{emit_start, emit_step, EmitAction, EmitFailure};
use tre_output::color::{
    accent_color_spec, convert_color, convert_optional_style, convert_to_color_spec, TermColorSpec,
};
use tre_output::render::{name_spec, plain_text, print_plan, render_segments, FormattedEntry};
use tre_output::text::{decimal_string, escape_single_quotes};

fn entry(prefix: &str, name: &str, path: &str) -> FormattedEntry {
    FormattedEntry { prefix: prefix.to_string(), name: name.to_string(), path: path.to_string() }
}

fn style(fg: Option<lscolors::Color>, bg: Option<lscolors::Color>, bold: bool, italic: bool, underline: bool) -> Style {
    let mut font_style = FontStyle::default();
    font_style.bold = bold;
    font_style.italic = italic;
    font_style.underline = underline;
    Style { foreground: fg, background: bg, font_style, underline: None }
}

#[test]
fn render_plain_without_index() {
    let entries = vec![entry("├── ", "foo.txt", "/a/foo.txt")];
    let segs = render_segments(&entries, false, false, &vec![None]);
    assert_eq!(plain_text(&segs), "├── foo.txt\n");
    assert!(segs.iter().all(|s| s.spec.is_none()));
}

#[test]
fn print_plan_without_colors_is_plain() {
    let entries = vec![entry("├── ", "foo.txt", "/a/foo.txt")];
    let segs = print_plan(&entries, false, None);
    assert_eq!(plain_text(&segs), "├── foo.txt\n");
    assert!(segs.iter().all(|s| s.spec.is_none()));
}

#[test]
fn render_index_with_unmatched_style() {
    let entries = vec![entry("", "bar", "/a/bar")];
    let segs = render_segments(&entries, true, true, &vec![None]);
    let text = plain_text(&segs);
    assert!(text.starts_with("[0] "));
    assert_eq!(text, "[0] bar\n");
    let index = segs.iter().find(|s| s.text == "0").unwrap();
    assert_eq!(index.spec, Some(accent_color_spec()));
    assert_eq!(index.spec.unwrap().fg, Some(Color::Red));
    let name = segs.iter().find(|s| s.text == "bar").unwrap();
    assert_eq!(name.spec, None);
}

#[test]
fn render_index_without_colors_is_plain() {
    let entries = vec![entry("", "bar", "/a/bar")];
    let segs = print_plan(&entries, true, None);
    assert_eq!(plain_text(&segs), "[0] bar\n");
    assert!(segs.iter().all(|s| s.spec.is_none()));
}

#[test]
fn render_index_lines_in_order() {
    let entries = vec![entry("├── ", "a", "/a"), entry("│   └── ", "b", "/a/b"), entry("└── ", "c", "/c")];
    let specs = vec![None, Some(accent_color_spec()), None];
    let segs = render_segments(&entries, true, true, &specs);
    assert_eq!(segs.len(), 18);
    assert_eq!(plain_text(&segs), "├── [0] a\n│   └── [1] b\n└── [2] c\n");
    assert_eq!(segs[10].spec, Some(accent_color_spec()));
    assert_eq!(segs[10].text, "b");
}

#[test]
fn render_empty_listing() {
    let entries: Vec<FormattedEntry> = vec![];
    let segs = render_segments(&entries, true, true, &vec![]);
    assert!(segs.is_empty());
    assert_eq!(plain_text(&segs), "");
}

#[test]
fn name_spec_without_colors_is_none() {
    assert_eq!(name_spec(None, "/a/foo.txt"), None);
}

#[test]
fn decimal_rendering() {
    assert_eq!(decimal_string(0), "0");
    assert_eq!(decimal_string(7), "7");
    assert_eq!(decimal_string(10), "10");
    assert_eq!(decimal_string(1234), "1234");
    assert_eq!(decimal_string(usize::MAX), usize::MAX.to_string());
}

#[test]
fn bright_colors_map_to_palette_indices() {
    let bright = [
        lscolors::Color::BrightBlack,
        lscolors::Color::BrightRed,
        lscolors::Color::BrightGreen,
        lscolors::Color::BrightYellow,
        lscolors::Color::BrightBlue,
        lscolors::Color::BrightMagenta,
        lscolors::Color::BrightCyan,
        lscolors::Color::BrightWhite,
    ];
    for (k, c) in bright.iter().enumerate() {
        assert_eq!(convert_color(c), Color::Ansi256(8 + k as u8));
    }
}

#[test]
fn named_colors_map_to_named_colors() {
    let pairs = [
        (lscolors::Color::Black, Color::Black),
        (lscolors::Color::Red, Color::Red),
        (lscolors::Color::Green, Color::Green),
        (lscolors::Color::Yellow, Color::Yellow),
        (lscolors::Color::Blue, Color::Blue),
        (lscolors::Color::Magenta, Color::Magenta),
        (lscolors::Color::Cyan, Color::Cyan),
        (lscolors::Color::White, Color::White),
    ];
    for (c, t) in pairs.iter() {
        assert_eq!(convert_color(c), *t);
    }
}

#[test]
fn rgb_and_fixed_pass_through() {
    assert_eq!(convert_color(&lscolors::Color::RGB(1, 2, 3)), Color::Rgb(1, 2, 3));
    assert_eq!(convert_color(&lscolors::Color::Fixed(200)), Color::Ansi256(200));
}

#[test]
fn style_conversion_copies_flags_and_colors() {
    let s = style(Some(lscolors::Color::BrightRed), Some(lscolors::Color::Fixed(4)), true, false, true);
    let spec = convert_to_color_spec(&s);
    assert_eq!(
        spec,
        TermColorSpec { fg: Some(Color::Ansi256(9)), bg: Some(Color::Ansi256(4)), bold: true, italic: false, underline: true }
    );
    assert_eq!(convert_to_color_spec(&s), spec);
    let plain = convert_to_color_spec(&style(None, None, false, true, false));
    assert_eq!(plain, TermColorSpec { fg: None, bg: None, bold: false, italic: true, underline: false });
}

#[test]
fn optional_style_conversion() {
    assert_eq!(convert_optional_style(None), None);
    let s = style(Some(lscolors::Color::Blue), None, false, false, false);
    assert_eq!(
        convert_optional_style(Some(&s)),
        Some(TermColorSpec { fg: Some(Color::Blue), bg: None, bold: false, italic: false, underline: false })
    );
}

#[test]
fn posix_aliases_empty_editor() {
    let entries = vec![entry("", "x", "/x"), entry("", "y", "/y")];
    let config = AliasConfig { user: "u".to_string(), temp_dir: String::new() };
    let files = alias_files(Platform::Posix, &config, "", &entries);
    assert_eq!(files.len(), 1);
    assert_eq!(files[0].dir, "/tmp");
    assert_eq!(files[0].file_name, "tre_aliases_u");
    assert_eq!(files[0].lines, vec!["alias e0=\"eval ' \\\"/x\\\"'\"", "alias e1=\"eval ' \\\"/y\\\"'\""]);
}

#[test]
fn posix_aliases_one_line_per_entry() {
    let entries: Vec<FormattedEntry> = (0..12).map(|k| entry("", "n", &format!("/p{}", k))).collect();
    let lines = posix_alias_lines("vim", &entries);
    assert_eq!(lines.len(), 12);
    for (k, line) in lines.iter().enumerate() {
        assert_eq!(*line, format!("alias e{}=\"eval 'vim \\\"/p{}\\\"'\"", k, k));
    }
    assert!(posix_alias_lines("vim", &vec![]).is_empty());
}

#[test]
fn posix_alias_escapes_quotes() {
    assert_eq!(posix_alias_line(3, "vim", "/a/it's"), "alias e3=\"eval 'vim \\\"/a/it\\'s\\\"'\"");
    assert_eq!(escape_single_quotes("a'b''"), "a\\'b\\'\\'");
    assert_eq!(escape_single_quotes("plain"), "plain");
    assert_eq!(escape_single_quotes(""), "");
}

#[test]
fn powershell_lines() {
    assert_eq!(powershell_alias_line(0, "", "C:\\a"), "Function e0 { Start-Process \"C:\\a\"}");
    assert_eq!(powershell_alias_line(12, "code", "C:\\a"), "Function e12 { code $args \"C:\\a\"}");
    let entries = vec![entry("", "x", "x"), entry("", "y", "y")];
    assert_eq!(
        powershell_alias_lines("", &entries),
        vec!["Function e0 { Start-Process \"x\"}", "Function e1 { Start-Process \"y\"}", "Export-ModuleMember -Function *"]
    );
}

#[test]
fn cmd_lines() {
    assert_eq!(cmd_alias_line(0, "", "C:\\a"), "doskey /exename=cmd.exe e0=START C:\\a");
    assert_eq!(cmd_alias_line(5, "notepad", "C:\\a"), "doskey /exename=cmd.exe e5=notepad C:\\a");
    let entries = vec![entry("", "x", "x")];
    assert_eq!(cmd_alias_lines("", &entries), vec!["doskey /exename=cmd.exe e0=START x"]);
}

#[test]
fn windows_alias_files() {
    let entries = vec![entry("", "x", "x")];
    let config = AliasConfig { user: "ann".to_string(), temp_dir: "C:\\Temp".to_string() };
    let files = alias_files(Platform::Windows, &config, "code", &entries);
    assert_eq!(files.len(), 2);
    assert_eq!(files[0].dir, "C:\\Temp");
    assert_eq!(files[0].file_name, "tre_aliases_ann.psm1");
    assert_eq!(files[0].lines, vec!["Function e0 { code $args \"x\"}", "Export-ModuleMember -Function *"]);
    assert_eq!(files[1].dir, "C:\\Temp");
    assert_eq!(files[1].file_name, "tre_aliases_ann.bat");
    assert_eq!(files[1].lines, vec!["doskey /exename=cmd.exe e0=code x"]);
}

#[test]
fn config_resolution() {
    let c = AliasConfig::resolve(Some("u".to_string()), Some("t".to_string()), Some("h".to_string()));
    assert_eq!((c.user.as_str(), c.temp_dir.as_str()), ("u", "t"));
    let c = AliasConfig::resolve(None, None, Some("h".to_string()));
    assert_eq!((c.user.as_str(), c.temp_dir.as_str()), ("", "h"));
    let c = AliasConfig::resolve(None, None, None);
    assert_eq!((c.user.as_str(), c.temp_dir.as_str()), ("", ""));
}

fn posix_files(n: usize) -> Vec<tre_output::alias::AliasFile> {
    let entries: Vec<FormattedEntry> = (0..n).map(|k| entry("", "n", &format!("/p{}", k))).collect();
    let config = AliasConfig { user: "u".to_string(), temp_dir: String::new() };
    alias_files(Platform::Posix, &config, "", &entries)
}

#[test]
fn emit_open_failure_writes_nothing() {
    let files = posix_files(2);
    let first = emit_start(&files);
    assert_eq!(first, EmitAction::Open { file: 0 });
    let step = emit_step(&files, first, false);
    assert_eq!(step.report, Some(EmitFailure::OpenFailed { file: 0 }));
    assert_eq!(step.next, EmitAction::Finish);
}

#[test]
fn emit_successful_run_writes_every_line_in_order() {
    let files = posix_files(2);
    let mut actions = vec![];
    let mut action = emit_start(&files);
    while action != EmitAction::Finish {
        actions.push(action);
        let step = emit_step(&files, action, true);
        assert_eq!(step.report, None);
        action = step.next;
    }
    assert_eq!(
        actions,
        vec![
            EmitAction::Open { file: 0 },
            EmitAction::Write { file: 0, line: 0 },
            EmitAction::Write { file: 0, line: 1 },
        ]
    );
}

#[test]
fn emit_write_failure_moves_to_next_file() {
    let entries = vec![entry("", "x", "x"), entry("", "y", "y")];
    let config = AliasConfig { user: "u".to_string(), temp_dir: String::new() };
    let files = alias_files(Platform::Windows, &config, "", &entries);
    let step = emit_step(&files, EmitAction::Write { file: 0, line: 0 }, false);
    assert_eq!(step.report, Some(EmitFailure::WriteFailed { file: 0 }));
    assert_eq!(step.next, EmitAction::Open { file: 1 });
    let step = emit_step(&files, EmitAction::Open { file: 1 }, false);
    assert_eq!(step.report, Some(EmitFailure::OpenFailed { file: 1 }));
    assert_eq!(step.next, EmitAction::Finish);
    let step = emit_step(&files, EmitAction::Write { file: 0, line: 2 }, true);
    assert_eq!(step.next, EmitAction::Open { file: 1 });
    assert_eq!(emit_start(&vec![]), EmitAction::Finish);
    assert_eq!(emit_step(&files, EmitAction::Finish, true).next, EmitAction::Finish);
}

#[test]
fn print_plan_styles_names_from_configuration() {
    let colors = lscolors::LsColors::from_string("di=01;34");
    let entries = vec![entry("└── ", "root", "/")];
    let segs = print_plan(&entries, true, Some(&colors));
    assert_eq!(plain_text(&segs), "└── [0] root\n");
    assert_eq!(segs[2].spec, Some(accent_color_spec()));
    assert_eq!(
        segs[4].spec,
        Some(TermColorSpec { fg: Some(Color::Blue), bg: None, bold: true, italic: false, underline: false })
    );
    assert_eq!(
        name_spec(Some(&colors), "/"),
        Some(TermColorSpec { fg: Some(Color::Blue), bg: None, bold: true, italic: false, underline: false })
    );
}
