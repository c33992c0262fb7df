use genocide::config::settings::Settings;
use genocide::config::template::template_is_safe;
use genocide::config::ui::{lines_to_draw, UiConfig, UiInfoConfig};
use genocide::d2::draw::{Alignment, TextColor};

fn line(message: &str) -> UiInfoConfig {
    UiInfoConfig {
        x: 10,
        y: 20,
        color: TextColor::Gold,
        alignment: Alignment::Center,
        font: 1,
        message: message.to_string(),
        tt: String::new(),
    }
}

fn vars(pairs: &[(&str, &str)]) -> Vec<(String, String)> {
    pairs.iter().map(|(k, v)| (k.to_string(), v.to_string())).collect()
}

#[test]
fn settings_start_zeroed() {
    let s = Settings::new("C:\\settings.json");
    assert_eq!(s.file_name(), "C:\\settings.json");
    assert_eq!(s.chicken.town_life, 0);
    assert_eq!(s.chicken.rejuv_mana, 0);
    assert_eq!(s.chicken().exit_life, 0);
}

#[test]
fn ui_config_starts_empty() {
    let c = UiConfig::new("ui.json");
    assert_eq!(c.file_name, "ui.json");
    assert!(c.automap.is_empty());
    assert!(c.screen.is_empty());
}

#[test]
fn render_substitutes_variables() {
    let l = line("Life: {life_percent}% in {area_name}");
    let v = vars(&[("life_percent", "55"), ("area_name", "Rogue Encampment")]);
    assert_eq!(l.render(&v), "Life: 55% in Rogue Encampment");
    assert_eq!(l.try_render(&v), Some("Life: 55% in Rogue Encampment".to_string()));
}

#[test]
fn render_escapes_html() {
    let l = line("{game_name}");
    let v = vars(&[("game_name", "<a&b>")]);
    assert_eq!(l.render(&v), "&lt;a&amp;b&gt;");
}

#[test]
fn plain_text_renders_unchanged() {
    let l = line("FPS");
    assert_eq!(l.render(&vars(&[])), "FPS");
    assert_eq!(line("").render(&vars(&[])), "");
}

#[test]
fn broken_template_does_not_render() {
    assert_eq!(line("{unclosed").try_render(&vars(&[])), None);
}

#[test]
fn missing_variable_does_not_render() {
    assert_eq!(line("{nothing_here}").try_render(&vars(&[("fps", "30")])), None);
}

#[test]
fn later_pair_replaces_earlier_one() {
    let l = line("{fps}");
    assert_eq!(l.render(&vars(&[("fps", "1"), ("fps", "2")])), "2");
}

#[test]
fn panicking_templates_are_refused() {
    assert!(!template_is_safe("C:\\"));
    assert!(!template_is_safe("{{ if not }}x{{ endif }}"));
    assert!(!template_is_safe("{{ if not}}x{{ endif }}"));
    assert!(!template_is_safe("{{ if notä }}x{{ endif }}"));
    assert!(!template_is_safe("{#}"));
    assert!(template_is_safe("{{ if not fps }}x{{ endif }}"));
    assert!(template_is_safe("Life: {life_percent}%"));
    assert!(template_is_safe("not enough mana"));
    assert!(template_is_safe("C:\\dir"));
    assert!(template_is_safe(""));
    assert_eq!(line("C:\\").try_render(&vars(&[])), None);
    assert_eq!(line("{{ if not }}x{{ endif }}").try_render(&vars(&[])), None);
    assert_eq!(line("{#}").try_render(&vars(&[])), None);
}

#[test]
fn templates_the_compiler_accepts_are_not_refused() {
    assert!(template_is_safe("{# {#} #}"));
    assert!(template_is_safe("if not\u{2620}"));
    assert!(template_is_safe("\\{#}"));
    assert!(template_is_safe("a\\{b}"));
    assert!(template_is_safe("{# C:\\ #}"));
    assert!(template_is_safe("{{ if not x }}{{ endif }} if not"));
    assert!(!template_is_safe("{fps}\\"));
    assert!(!template_is_safe("{{- if not -}}x{{ endif }}"));
    let none = vars(&[]);
    assert_eq!(line("{# {#} #}").try_render(&none), Some(" #}".to_string()));
    assert_eq!(line("if not\u{2620}").render(&none), "if not\u{2620}");
    assert_eq!(line("\\{#}").render(&none), "{#}");
    assert_eq!(line("a\\{b}").render(&none), "a{b}");
    assert_eq!(line("{# C:\\ #}").render(&none), "");
    assert_eq!(
        lines_to_draw(&vec![line("{# {#} #}"), line("if not\u{2620}")], &none),
        Some(vec![(0, " #}".to_string()), (1, "if not\u{2620}".to_string())])
    );
}

#[test]
fn negated_condition_renders() {
    let l = line("{{ if not flag }}off{{ else }}on{{ endif }}");
    assert_eq!(l.try_render(&vars(&[("flag", "")])), Some("off".to_string()));
    assert_eq!(l.try_render(&vars(&[("flag", "x")])), Some("on".to_string()));
}

#[test]
fn lines_to_draw_skips_empty_lines() {
    let lines = vec![line("FPS: {fps}"), line("{empty}"), line("Ping: {ping}")];
    let v = vars(&[("fps", "25"), ("empty", ""), ("ping", "120")]);
    assert_eq!(
        lines_to_draw(&lines, &v),
        Some(vec![(0, "FPS: 25".to_string()), (2, "Ping: 120".to_string())])
    );
    let broken = vec![line("FPS: {fps}"), line("{missing}")];
    assert_eq!(lines_to_draw(&broken, &v), None);
    assert_eq!(lines_to_draw(&Vec::new(), &v), Some(Vec::new()));
}
