use config_panel::compose::{apply_scroll, compose_all, compose_lines, compose_view, panel_frame};
use config_panel::lines::entry_to_lines;
use config_panel::model::{ConfigEntry, ConfigGroup, ConfigStore, DisplayMode};
use config_panel::style::{styled_line_text, Color, SpanStyle, StyledLine};

fn entry(name: &str, pairs: &[(&str, &str)]) -> ConfigEntry {
    ConfigEntry {
        full_name: name.to_string(),
        host_config: pairs
            .iter()
            .map(|(k, v)| (k.to_string(), v.to_string()))
            .collect(),
    }
}

fn store(groups: Vec<Vec<ConfigEntry>>) -> ConfigStore {
    ConfigStore {
        groups: groups
            .into_iter()
            .map(|items| ConfigGroup { items })
            .collect(),
    }
}

fn texts(lines: &[StyledLine]) -> Vec<String> {
    lines.iter().map(styled_line_text).collect()
}

#[test]
fn line_builder_example() {
    let e = entry("web1", &[("HostName", "1.2.3.4"), ("User", "root")]);
    let lines = entry_to_lines(&e);
    assert_eq!(
        texts(&lines),
        vec!["Host web1", "  HostName 1.2.3.4", "  User root", ""]
    );
}

#[test]
fn line_builder_count_is_keys_plus_two() {
    let e = entry("db", &[("Port", "22"), ("User", "admin"), ("IdentityFile", "~/.ssh/id")]);
    let lines = entry_to_lines(&e);
    assert_eq!(lines.len(), 3 + 2);
    assert_eq!(styled_line_text(&lines[0]), "Host db");
    assert_eq!(styled_line_text(&lines[4]), "");
}

#[test]
fn line_builder_zero_keys_still_header_and_blank() {
    let e = entry("alpha", &[]);
    let lines = entry_to_lines(&e);
    assert_eq!(texts(&lines), vec!["Host alpha", ""]);
}

#[test]
fn line_builder_empty_name_is_not_an_error() {
    let e = entry("", &[("User", "root")]);
    let lines = entry_to_lines(&e);
    assert_eq!(texts(&lines), vec!["Host ", "  User root", ""]);
}

#[test]
fn line_builder_styling_policy() {
    let e = entry("web1", &[("User", "root")]);
    let lines = entry_to_lines(&e);

    let accent = SpanStyle { fg: Color::Magenta, bold: false };
    let plain = SpanStyle { fg: Color::White, bold: false };

    let header = &lines[0].spans;
    assert_eq!(header.len(), 2);
    assert_eq!(header[0].text, "Host ");
    assert_eq!(header[0].style, accent);
    assert_eq!(header[1].text, "web1");
    assert_eq!(header[1].style, plain);

    let pair = &lines[1].spans;
    assert_eq!(pair.len(), 4);
    assert_eq!(pair[0].text, "  ");
    assert_eq!(pair[0].style, accent);
    assert_eq!(pair[1].text, "User");
    assert_eq!(pair[1].style, accent);
    assert_eq!(pair[2].text, " ");
    assert_eq!(pair[2].style, plain);
    assert_eq!(pair[3].text, "root");
    assert_eq!(pair[3].style, plain);

    let blank = &lines[2].spans;
    assert_eq!(blank.len(), 1);
    assert_eq!(blank[0].text, "");
    assert_eq!(blank[0].style, plain);
}

#[test]
fn show_all_is_ordered_concatenation() {
    let e1 = entry("a", &[("HostName", "10.0.0.1")]);
    let e2 = entry("b", &[("User", "root"), ("Port", "2222")]);
    let e3 = entry("c", &[]);
    let s = store(vec![vec![e1.clone(), e2.clone()], vec![e3.clone()]]);

    let mut expected = entry_to_lines(&e1);
    expected.extend(entry_to_lines(&e2));
    expected.extend(entry_to_lines(&e3));

    assert_eq!(compose_all(&s), expected);
    assert_eq!(compose_lines(DisplayMode::ShowAll, &s, None), expected);
}

#[test]
fn show_all_empty_group_contributes_nothing() {
    let e1 = entry("a", &[("User", "root")]);
    let with_empty = store(vec![vec![], vec![e1.clone()], vec![]]);
    let without = store(vec![vec![e1.clone()]]);
    assert_eq!(compose_all(&with_empty), compose_all(&without));
}

#[test]
fn show_all_empty_store_is_empty_inside_frame() {
    let s = store(vec![]);
    let lines = compose_view(DisplayMode::ShowAll, &s, None, 0);
    assert!(lines.is_empty());

    let frame = panel_frame();
    assert_eq!(frame.title, " Configuration ");
    assert_eq!(frame.title_fg, Color::White);
    assert_eq!(frame.border_fg, Color::LightMagenta);
    assert!(frame.rounded_border);
    assert!(frame.centered_title);
    assert!(frame.word_wrap);
}

#[test]
fn show_selected_renders_only_that_entry() {
    let e1 = entry("a", &[("User", "root")]);
    let e2 = entry("b", &[("Port", "22")]);
    let s = store(vec![vec![e1.clone(), e2.clone()]]);
    let lines = compose_lines(DisplayMode::ShowSelected, &s, Some(&e2));
    assert_eq!(lines, entry_to_lines(&e2));
}

#[test]
fn show_selected_without_selection_is_placeholder() {
    let busy = store(vec![vec![entry("a", &[("User", "root")])]]);
    let empty = store(vec![]);

    let lines = compose_lines(DisplayMode::ShowSelected, &busy, None);
    assert_eq!(lines.len(), 1);
    assert_eq!(styled_line_text(&lines[0]), "No item selected.");
    assert_eq!(lines[0].spans.len(), 1);
    assert_eq!(lines[0].spans[0].style, SpanStyle { fg: Color::Yellow, bold: true });

    assert_eq!(lines, compose_lines(DisplayMode::ShowSelected, &empty, None));
}

#[test]
fn scroll_within_content_starts_at_offset() {
    let e = entry("web1", &[("HostName", "1.2.3.4"), ("User", "root")]);
    let s = store(vec![vec![e.clone()]]);
    let composed = compose_lines(DisplayMode::ShowAll, &s, None);
    assert_eq!(composed.len(), 4);

    let scrolled = compose_view(DisplayMode::ShowAll, &s, None, 1);
    assert_eq!(scrolled.len(), 3);
    assert_eq!(scrolled[0], composed[1]);
    assert_eq!(styled_line_text(&scrolled[0]), "  HostName 1.2.3.4");

    let unscrolled = compose_view(DisplayMode::ShowAll, &s, None, 0);
    assert_eq!(unscrolled, composed);
}

#[test]
fn scroll_at_or_past_end_is_empty() {
    let e = entry("web1", &[("User", "root")]);
    let s = store(vec![vec![e.clone()]]);
    let composed = compose_lines(DisplayMode::ShowAll, &s, None);
    let len = composed.len() as u16;

    assert!(compose_view(DisplayMode::ShowAll, &s, None, len).is_empty());
    assert!(compose_view(DisplayMode::ShowAll, &s, None, len + 5).is_empty());
    assert!(compose_view(DisplayMode::ShowSelected, &s, None, 1).is_empty());

    let selected = compose_view(DisplayMode::ShowSelected, &s, Some(&e), 9999);
    assert!(selected.is_empty());
}

#[test]
fn apply_scroll_drops_leading_lines() {
    let e = entry("web1", &[("HostName", "1.2.3.4"), ("User", "root")]);
    let lines = entry_to_lines(&e);
    let tail = apply_scroll(lines.clone(), 2);
    assert_eq!(texts(&tail), vec!["  User root", ""]);
}

#[test]
fn composer_is_idempotent() {
    let e1 = entry("a", &[("User", "root")]);
    let e2 = entry("b", &[("Port", "22"), ("HostName", "10.0.0.2")]);
    let s = store(vec![vec![e1.clone()], vec![e2.clone()]]);

    let first = compose_view(DisplayMode::ShowAll, &s, Some(&e1), 1);
    let second = compose_view(DisplayMode::ShowAll, &s, Some(&e1), 1);
    assert_eq!(first, second);

    let first_sel = compose_view(DisplayMode::ShowSelected, &s, Some(&e2), 0);
    let second_sel = compose_view(DisplayMode::ShowSelected, &s, Some(&e2), 0);
    assert_eq!(first_sel, second_sel);
}

#[test]
fn styled_line_text_concatenates_spans() {
    let e = entry("x", &[("a b", "c  d")]);
    let lines = entry_to_lines(&e);
    assert_eq!(styled_line_text(&lines[1]), "  a b c  d");
}
