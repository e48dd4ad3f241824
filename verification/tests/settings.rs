use ruffle_ios::options::{LoadBehavior, PlayerOptions, PlayerRuntime, StageAlign, StageQuality, StageScaleMode, TimeSpan};
use ruffle_ios::settings::{
    cell_at_index_path, form_element, number_of_rows_in_section, number_of_sections, BoolSetting, CellContent,
    FormElement, MenuItem, SelectSetting, SettingError, StringSetting,
};

fn options() -> PlayerOptions {
    PlayerOptions::unset()
}

#[test]
fn form_has_five_sections_and_a_parameter_section() {
    assert_eq!(number_of_sections(), 6);
    assert_eq!(number_of_rows_in_section(0, 0), 1);
    assert_eq!(number_of_rows_in_section(1, 0), 5);
    assert_eq!(number_of_rows_in_section(2, 0), 2);
    assert_eq!(number_of_rows_in_section(3, 0), 2);
    assert_eq!(number_of_rows_in_section(4, 0), 7);
    assert_eq!(number_of_rows_in_section(5, 0), 1);
    assert_eq!(number_of_rows_in_section(5, 3), 4);
    assert_eq!(form_element(0, 0), FormElement::Name);
    assert_eq!(form_element(1, 4), FormElement::FrameRate);
    assert_eq!(form_element(4, 6), FormElement::Bool(BoolSetting::DummyExternalInterface));
}

#[test]
fn name_row_shows_cached_name() {
    let cell = cell_at_index_path(&options(), "My movie", 0, 0);
    assert_eq!(cell.reuse_identifier(), "root-name");
    match cell {
        CellContent::Name { text } => assert_eq!(text, "My movie"),
        _ => panic!("expected the name row"),
    }
}

#[test]
fn parameter_rows_and_add_row() {
    let mut o = options();
    o.parameters.push(("key".to_string(), "value".to_string()));
    let cell = cell_at_index_path(&o, "m", 5, 0);
    assert_eq!(cell.reuse_identifier(), "movie-parameter");
    match cell {
        CellContent::Parameter { name, value } => {
            assert_eq!(name, "key");
            assert_eq!(value, "value");
        }
        _ => panic!("expected a parameter row"),
    }
    let add = cell_at_index_path(&o, "m", 5, 1);
    assert_eq!(add.reuse_identifier(), "movie-parameter-add");
    assert!(matches!(add, CellContent::ParameterAdd));
}

#[test]
fn text_row_shows_duration_in_seconds() {
    let mut o = options();
    o.max_execution_duration = Some(TimeSpan { secs: 15, subsec_nanos: 500 });
    let cell = cell_at_index_path(&o, "m", 1, 0);
    assert_eq!(cell.reuse_identifier(), "string");
    match cell {
        CellContent::Text { setting, label, text } => {
            assert_eq!(setting, StringSetting::MaxExecutionDuration);
            assert_eq!(label, "Maximum execution duration (s)");
            assert_eq!(text, Some("15".to_string()));
        }
        _ => panic!("expected a text row"),
    }
    match cell_at_index_path(&options(), "m", 1, 0) {
        CellContent::Text { text, .. } => assert_eq!(text, None),
        _ => panic!("expected a text row"),
    }
}

#[test]
fn menu_row_checks_default_when_unset() {
    match cell_at_index_path(&options(), "m", 1, 1) {
        CellContent::Select { setting, label, items } => {
            assert_eq!(setting, SelectSetting::Quality);
            assert_eq!(label, "Quality");
            assert_eq!(items.len(), 9);
            assert_eq!(items[0], MenuItem { title: "Default", on: true });
            assert!(items[1..].iter().all(|i| !i.on));
            assert_eq!(items[8].title, "High (16x16) Linear");
        }
        _ => panic!("expected a menu row"),
    }
}

#[test]
fn menu_row_checks_chosen_entry() {
    let mut o = options();
    o.quality = Some(StageQuality::High8x8);
    match cell_at_index_path(&o, "m", 1, 1) {
        CellContent::Select { items, .. } => {
            let on: Vec<&str> = items.iter().filter(|i| i.on).map(|i| i.title).collect();
            assert_eq!(on, vec!["High (8x8)"]);
        }
        _ => panic!("expected a menu row"),
    }
}

#[test]
fn alignment_outside_the_menu_shows_center() {
    let mut o = options();
    o.align = Some(StageAlign { bits: 3 });
    assert_eq!(SelectSetting::Align.enabled_variant(&o), Some("Center"));
    o.align = Some(StageAlign { bits: 10 });
    assert_eq!(SelectSetting::Align.enabled_variant(&o), Some("Bottom-Right"));
}

#[test]
fn toggle_row_segments() {
    let mut o = options();
    let segment = |o: &PlayerOptions| match cell_at_index_path(o, "m", 2, 1) {
        CellContent::Toggle { selected_segment, label, .. } => {
            assert_eq!(label, "Force");
            selected_segment
        }
        _ => panic!("expected a toggle row"),
    };
    assert_eq!(segment(&o), 0);
    o.force_align = Some(false);
    assert_eq!(segment(&o), 1);
    o.force_align = Some(true);
    assert_eq!(segment(&o), 2);
}

#[test]
fn menu_entries_write_and_read_back() {
    for setting in [
        SelectSetting::Quality,
        SelectSetting::PlayerRuntime,
        SelectSetting::Align,
        SelectSetting::ScaleMode,
        SelectSetting::LoadBehavior,
    ] {
        for variant in setting.variants() {
            let mut o = options();
            assert!(setting.write_if_set(&mut o, variant).is_ok());
            assert_eq!(setting.enabled_variant(&o), Some(variant));
        }
    }
}

#[test]
fn menu_entries_set_the_expected_values() {
    let mut o = options();
    SelectSetting::Align.write_if_set(&mut o, "Top-Left").unwrap();
    assert_eq!(o.align, Some(StageAlign { bits: 5 }));
    SelectSetting::Align.write_if_set(&mut o, "Center").unwrap();
    assert_eq!(o.align, Some(StageAlign { bits: 0 }));
    SelectSetting::ScaleMode.write_if_set(&mut o, "Zoom to Fit").unwrap();
    assert_eq!(o.scale, Some(StageScaleMode::ShowAll));
    SelectSetting::PlayerRuntime.write_if_set(&mut o, "Adobe AIR").unwrap();
    assert_eq!(o.player_runtime, Some(PlayerRuntime::AIR));
    SelectSetting::LoadBehavior.write_if_set(&mut o, "Blocking").unwrap();
    assert_eq!(o.load_behavior, Some(LoadBehavior::Blocking));
}

#[test]
fn unknown_menu_entries_are_refused() {
    let cases = [
        (SelectSetting::Quality, "invalid stage quality"),
        (SelectSetting::PlayerRuntime, "invalid player runtime"),
        (SelectSetting::Align, "invalid stage"),
        (SelectSetting::ScaleMode, "invalid scale mode"),
        (SelectSetting::LoadBehavior, "invalid load behaviour"),
    ];
    for (setting, message) in cases {
        let mut o = options();
        let err = setting.write_if_set(&mut o, "low").unwrap_err();
        assert_eq!(err.message(), message);
        assert!(setting.enabled_variant(&o).is_none());
    }
}

#[test]
fn duration_and_version_are_read_as_numbers() {
    let mut o = options();
    StringSetting::MaxExecutionDuration.write_if_set(&mut o, "+42").unwrap();
    assert_eq!(o.max_execution_duration, Some(TimeSpan { secs: 42, subsec_nanos: 0 }));
    assert_eq!(StringSetting::MaxExecutionDuration.text(&o), Some("42".to_string()));
    StringSetting::PlayerVersion.write_if_set(&mut o, "32").unwrap();
    assert_eq!(o.player_version, Some(32));
    assert_eq!(StringSetting::PlayerVersion.text(&o), Some("32".to_string()));
    StringSetting::MaxExecutionDuration.write_if_set(&mut o, "18446744073709551615").unwrap();
    assert_eq!(StringSetting::MaxExecutionDuration.text(&o), Some("18446744073709551615".to_string()));
}

#[test]
fn bad_numbers_are_refused_and_leave_options() {
    let mut o = options();
    let err = StringSetting::PlayerVersion.write_if_set(&mut o, "256").unwrap_err();
    assert!(matches!(err, SettingError::InvalidPlayerVersion(_)));
    assert!(err.message().starts_with("invalid player version: "));
    for text in ["", "+", "-1", " 1", "1.5", "abc"] {
        let err = StringSetting::MaxExecutionDuration.write_if_set(&mut o, text).unwrap_err();
        assert!(matches!(err, SettingError::InvalidDuration(_)));
        assert!(err.message().starts_with("invalid duration: "));
    }
    assert!(o.max_execution_duration.is_none() && o.player_version.is_none());
}

#[test]
fn urls_are_stored_serialized() {
    let mut o = options();
    StringSetting::BaseUrl.write_if_set(&mut o, "https://example.com").unwrap();
    assert_eq!(o.base, Some("https://example.com/".to_string()));
    assert_eq!(StringSetting::BaseUrl.text(&o), Some("https://example.com/".to_string()));
    StringSetting::SpoofUrl.write_if_set(&mut o, "HTTP://Example.com/a/../b.swf").unwrap();
    assert_eq!(o.spoof_url, Some("http://example.com/b.swf".to_string()));
    let err = StringSetting::RefererUrl.write_if_set(&mut o, "not a url").unwrap_err();
    assert!(matches!(err, SettingError::InvalidUrl(_)));
    assert!(err.message().starts_with("invalid URL: "));
    assert!(o.referer.is_none());
}

#[test]
fn cookie_takes_any_text() {
    let mut o = options();
    StringSetting::Cookie.write_if_set(&mut o, "a=b; c").unwrap();
    assert_eq!(StringSetting::Cookie.text(&o), Some("a=b; c".to_string()));
}

#[test]
fn toggles_write_and_read_back() {
    for setting in [
        BoolSetting::ForceAlign,
        BoolSetting::ForceScale,
        BoolSetting::UpgradeToHttps,
        BoolSetting::DummyExternalInterface,
    ] {
        let mut o = options();
        assert_eq!(setting.value(&o), None);
        setting.write_if_set(&mut o, true);
        assert_eq!(setting.value(&o), Some(true));
        setting.write_if_set(&mut o, false);
        assert_eq!(setting.value(&o), Some(false));
    }
}

#[test]
fn frame_rate_row_is_left_to_the_view() {
    let cell = cell_at_index_path(&options(), "m", 1, 4);
    assert_eq!(cell.reuse_identifier(), "string");
    match cell {
        CellContent::FrameRate { label } => assert_eq!(label, "Custom framerate (fps)"),
        _ => panic!("expected the frame rate row"),
    }
}

#[test]
fn shown_values_write_back_unchanged() {
    let mut o = options();
    o.max_execution_duration = Some(TimeSpan { secs: 30, subsec_nanos: 0 });
    o.player_version = Some(9);
    o.cookie = Some("x=y".to_string());
    o.quality = Some(StageQuality::Best);
    o.align = Some(StageAlign { bits: 9 });
    let before = format!("{:?}", o);
    for setting in [StringSetting::MaxExecutionDuration, StringSetting::PlayerVersion, StringSetting::Cookie] {
        let text = setting.text(&o).unwrap();
        setting.write_if_set(&mut o, &text).unwrap();
    }
    for setting in [SelectSetting::Quality, SelectSetting::Align] {
        let shown = setting.enabled_variant(&o).unwrap();
        setting.write_if_set(&mut o, shown).unwrap();
    }
    assert_eq!(format!("{:?}", o), before);
}
