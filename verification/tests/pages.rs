use ferrosonic::app::equalizer::{
    finish_create, finish_delete, finish_rename, handle_equalizer_key, typed_name, EqAction,
    EqNotice, EqualizerPage,
};
use ferrosonic::app::keys::{key_is_char, key_is_down, key_is_left, key_is_right, key_is_up, Key, KeyPress};
use ferrosonic::app::radio::{handle_radio_key, RadioAction};
use ferrosonic::app::settings::{
    handle_settings_key, settings_follow_up, AudioBackend, CavaFollowUp, Direction, SettingsChange,
    SettingsPage,
};

fn press(key: Key) -> KeyPress {
    KeyPress { key, shift: false, control_or_alt: false }
}

fn settings(field: usize) -> SettingsPage {
    SettingsPage {
        selected_field: field,
        cava_available: true,
        cava_enabled: false,
        cava_size: 40,
        audio_backend: AudioBackend::Mpv,
        non_stop_mode: false,
        equalizer_enabled: true,
    }
}

#[test]
fn vim_keys_count_as_arrows() {
    assert!(key_is_up(Key::Up) && key_is_up(Key::Char('k')));
    assert!(key_is_down(Key::Down) && key_is_down(Key::Char('j')));
    assert!(key_is_left(Key::Left) && key_is_left(Key::Char('h')));
    assert!(key_is_right(Key::Right) && key_is_right(Key::Char('l')));
    assert!(!key_is_up(Key::Char('K')));
    assert!(key_is_char(Key::Char('x'), 'x'));
    assert!(!key_is_char(Key::Enter, 'x'));
}

#[test]
fn backend_toggles_and_names_itself() {
    assert_eq!(AudioBackend::Mpv.toggle(), AudioBackend::Ffmpeg);
    assert_eq!(AudioBackend::Ffmpeg.toggle(), AudioBackend::Mpv);
    assert_eq!(AudioBackend::Ffmpeg.config_name(), "ffmpeg");
    assert_eq!(AudioBackend::Mpv.config_name(), "mpv");
}

#[test]
fn settings_fields_stay_between_first_and_last() {
    let mut p = settings(0);
    assert_eq!(handle_settings_key(&mut p, Key::Up), None);
    assert_eq!(p.selected_field, 0);
    for _ in 0..10 {
        handle_settings_key(&mut p, Key::Char('j'));
    }
    assert_eq!(p.selected_field, 5);
    handle_settings_key(&mut p, Key::Char('k'));
    assert_eq!(p.selected_field, 4);
}

#[test]
fn theme_field_steps_through_themes() {
    let mut p = settings(0);
    assert_eq!(handle_settings_key(&mut p, Key::Left), Some(SettingsChange::Theme(Direction::Previous)));
    assert_eq!(handle_settings_key(&mut p, Key::Enter), Some(SettingsChange::Theme(Direction::Next)));
    assert_eq!(p, settings(0));
}

#[test]
fn cava_fields_need_cava() {
    let mut p = settings(1);
    assert_eq!(handle_settings_key(&mut p, Key::Char(' ')), Some(SettingsChange::Cava(true)));
    assert!(p.cava_enabled);
    let mut q = SettingsPage { cava_available: false, ..settings(1) };
    assert_eq!(handle_settings_key(&mut q, Key::Enter), None);
    assert!(!q.cava_enabled);
    let mut q = SettingsPage { cava_available: false, ..settings(2) };
    assert_eq!(handle_settings_key(&mut q, Key::Right), None);
    assert_eq!(q.cava_size, 40);
}

#[test]
fn cava_size_moves_in_steps_of_five_within_limits() {
    let mut p = SettingsPage { cava_size: 75, ..settings(2) };
    assert_eq!(handle_settings_key(&mut p, Key::Right), Some(SettingsChange::CavaSize(80)));
    assert_eq!(handle_settings_key(&mut p, Key::Right), None);
    assert_eq!(p.cava_size, 80);
    let mut p = SettingsPage { cava_size: 15, ..settings(2) };
    assert_eq!(handle_settings_key(&mut p, Key::Char('h')), Some(SettingsChange::CavaSize(10)));
    assert_eq!(handle_settings_key(&mut p, Key::Char('h')), None);
    assert_eq!(p.cava_size, 10);
}

#[test]
fn backend_non_stop_and_equalizer_fields_toggle() {
    let mut p = settings(3);
    assert_eq!(handle_settings_key(&mut p, Key::Left), Some(SettingsChange::Backend(AudioBackend::Ffmpeg)));
    let mut p = settings(4);
    assert_eq!(handle_settings_key(&mut p, Key::Right), Some(SettingsChange::NonStopMode(true)));
    let mut p = settings(5);
    assert_eq!(handle_settings_key(&mut p, Key::Enter), Some(SettingsChange::Equalizer(false)));
    assert_eq!(handle_settings_key(&mut p, Key::Esc), None);
}

#[test]
fn pressing_enter_twice_restores_settings() {
    for field in [1usize, 3, 4, 5] {
        let mut p = settings(field);
        handle_settings_key(&mut p, Key::Enter);
        handle_settings_key(&mut p, Key::Enter);
        assert_eq!(p, settings(field));
    }
    let mut p = SettingsPage { cava_size: 50, ..settings(2) };
    handle_settings_key(&mut p, Key::Left);
    handle_settings_key(&mut p, Key::Right);
    assert_eq!(p, SettingsPage { cava_size: 50, ..settings(2) });
}

#[test]
fn radio_selection_moves_within_stations() {
    let mut sel = None;
    assert_eq!(handle_radio_key(&mut sel, 3, false, Key::Down), RadioAction::Nothing);
    assert_eq!(sel, Some(0));
    handle_radio_key(&mut sel, 3, false, Key::Char('j'));
    handle_radio_key(&mut sel, 3, false, Key::Char('j'));
    handle_radio_key(&mut sel, 3, false, Key::Char('j'));
    assert_eq!(sel, Some(2));
    handle_radio_key(&mut sel, 3, false, Key::Up);
    assert_eq!(sel, Some(1));
    let mut none = None;
    handle_radio_key(&mut none, 0, false, Key::Up);
    assert_eq!(none, None);
}

#[test]
fn radio_enter_plays_and_s_stops() {
    let mut sel = Some(1);
    assert_eq!(handle_radio_key(&mut sel, 3, false, Key::Enter), RadioAction::Play(1));
    assert_eq!(handle_radio_key(&mut sel, 3, true, Key::Char('s')), RadioAction::Stop);
    assert_eq!(handle_radio_key(&mut sel, 3, false, Key::Char('s')), RadioAction::Nothing);
    let mut stale = Some(5);
    assert_eq!(handle_radio_key(&mut stale, 3, false, Key::Enter), RadioAction::Nothing);
    let mut none = None;
    assert_eq!(handle_radio_key(&mut none, 3, false, Key::Enter), RadioAction::Nothing);
}

fn names() -> Vec<String> {
    vec!["Flat".to_string(), "Rock".to_string(), "Pop".to_string()]
}

fn eq_page() -> EqualizerPage {
    EqualizerPage { renaming: false, editing: false, selected_band: 0, preset_index: 0, enabled: true }
}

#[test]
fn browsing_presets_saves_and_applies() {
    let mut p = eq_page();
    let mut buf = String::new();
    let o = handle_equalizer_key(&mut p, &mut buf, &names(), press(Key::Down));
    assert_eq!(p.preset_index, 1);
    assert_eq!(o.notice, Some(EqNotice::Status));
    assert!(o.save_config && o.apply);
    let o = handle_equalizer_key(&mut p, &mut buf, &names(), press(Key::Char('l')));
    assert_eq!(o.action, EqAction::StepPreset(Direction::Next));
    let mut last = EqualizerPage { preset_index: 2, ..eq_page() };
    let o = handle_equalizer_key(&mut last, &mut buf, &names(), press(Key::Down));
    assert_eq!(last.preset_index, 2);
    assert_eq!(o.action, EqAction::Nothing);
    assert!(!o.save_config);
}

#[test]
fn enter_toggles_equalizer_and_always_applies() {
    let mut p = eq_page();
    let mut buf = String::new();
    let o = handle_equalizer_key(&mut p, &mut buf, &names(), press(Key::Enter));
    assert!(!p.enabled);
    assert!(o.apply && o.save_config);
}

#[test]
fn editing_bands() {
    let mut p = eq_page();
    let mut buf = String::new();
    let o = handle_equalizer_key(&mut p, &mut buf, &names(), press(Key::Char('e')));
    assert!(p.editing);
    assert_eq!(o.notice, Some(EqNotice::EditingHelp));
    for _ in 0..12 {
        handle_equalizer_key(&mut p, &mut buf, &names(), press(Key::Down));
    }
    assert_eq!(p.selected_band, 9);
    let shifted = KeyPress { key: Key::Right, shift: true, control_or_alt: false };
    let o = handle_equalizer_key(&mut p, &mut buf, &names(), shifted);
    assert_eq!(o.action, EqAction::RaiseBand { band: 9, large: true });
    assert!(o.apply);
    let o = handle_equalizer_key(&mut p, &mut buf, &names(), press(Key::Char('h')));
    assert_eq!(o.action, EqAction::LowerBand { band: 9, large: false });
    let o = handle_equalizer_key(&mut p, &mut buf, &names(), press(Key::Char('0')));
    assert_eq!(o.action, EqAction::ZeroBand { band: 9 });
    let o = handle_equalizer_key(&mut p, &mut buf, &names(), press(Key::Char('r')));
    assert_eq!(o.action, EqAction::ResetBands);
    assert_eq!(o.notice, Some(EqNotice::BandsReset));
    let o = handle_equalizer_key(&mut p, &mut buf, &names(), press(Key::Esc));
    assert!(!p.editing);
    assert_eq!(o.action, EqAction::SavePreset { index: 0 });
    assert_eq!(o.notice, Some(EqNotice::PresetSaved));
}

#[test]
fn band_changes_apply_only_when_enabled() {
    let mut p = EqualizerPage { editing: true, enabled: false, ..eq_page() };
    let mut buf = String::new();
    let o = handle_equalizer_key(&mut p, &mut buf, &names(), press(Key::Right));
    assert!(!o.apply);
}

#[test]
fn renaming_a_preset() {
    let mut p = EqualizerPage { preset_index: 1, ..eq_page() };
    let mut buf = String::new();
    let o = handle_equalizer_key(&mut p, &mut buf, &names(), press(Key::Char('R')));
    assert!(p.renaming);
    assert_eq!(buf, "Rock");
    assert_eq!(o.notice, Some(EqNotice::RenameHelp));
    for _ in 0..4 {
        handle_equalizer_key(&mut p, &mut buf, &names(), press(Key::Backspace));
    }
    assert_eq!(buf, "");
    handle_equalizer_key(&mut p, &mut buf, &names(), press(Key::Backspace));
    assert_eq!(buf, "");
    let o = handle_equalizer_key(&mut p, &mut buf, &names(), press(Key::Enter));
    assert_eq!(o.notice, Some(EqNotice::EmptyName));
    for c in " pOP ".chars() {
        handle_equalizer_key(&mut p, &mut buf, &names(), press(Key::Char(c)));
    }
    assert_eq!(buf, " pOP ");
    let o = handle_equalizer_key(&mut p, &mut buf, &names(), press(Key::Enter));
    assert_eq!(o.notice, Some(EqNotice::DuplicateName));
    handle_equalizer_key(&mut p, &mut buf, &names(), press(Key::Char('2')));
    let o = handle_equalizer_key(&mut p, &mut buf, &names(), press(Key::Enter));
    assert_eq!(o.action, EqAction::Rename { index: 1 });
    assert_eq!(typed_name(&buf), "pOP 2");
    let o = finish_rename(&mut p, &mut buf);
    assert!(!p.renaming);
    assert_eq!(buf, "");
    assert_eq!(o.notice, Some(EqNotice::Renamed));
    assert!(o.save_config);
}

#[test]
fn renaming_to_own_name_is_allowed() {
    let mut p = EqualizerPage { renaming: true, preset_index: 1, ..eq_page() };
    let mut buf = "ROCK".to_string();
    let o = handle_equalizer_key(&mut p, &mut buf, &names(), press(Key::Enter));
    assert_eq!(o.action, EqAction::Rename { index: 1 });
}

#[test]
fn typed_names_are_limited_and_filtered() {
    let mut p = EqualizerPage { renaming: true, ..eq_page() };
    let mut buf = String::new();
    for _ in 0..60 {
        handle_equalizer_key(&mut p, &mut buf, &names(), press(Key::Char('x')));
    }
    assert_eq!(buf.len(), 48);
    let mut buf = String::new();
    handle_equalizer_key(&mut p, &mut buf, &names(), press(Key::Char('é')));
    let ctrl = KeyPress { key: Key::Char('a'), shift: false, control_or_alt: true };
    handle_equalizer_key(&mut p, &mut buf, &names(), ctrl);
    assert_eq!(buf, "");
    let o = handle_equalizer_key(&mut p, &mut buf, &names(), press(Key::Esc));
    assert!(!p.renaming);
    assert_eq!(o.notice, Some(EqNotice::RenameCanceled));
}

#[test]
fn creating_and_deleting_presets() {
    let mut p = eq_page();
    let mut buf = String::new();
    let o = handle_equalizer_key(&mut p, &mut buf, &names(), press(Key::Char('n')));
    assert_eq!(o.action, EqAction::CreatePreset);
    let o = finish_create(&mut p, Some(3));
    assert_eq!(p.preset_index, 3);
    assert_eq!(o.notice, Some(EqNotice::Created));
    assert!(o.apply && o.save_config);
    let o = handle_equalizer_key(&mut EqualizerPage { preset_index: 2, ..eq_page() }, &mut buf, &names(), press(Key::Char('D')));
    assert_eq!(o.action, EqAction::DeletePreset { index: 2 });
    let only = vec!["Flat".to_string()];
    let o = handle_equalizer_key(&mut eq_page(), &mut buf, &only, press(Key::Char('D')));
    assert_eq!(o.action, EqAction::Nothing);
    assert_eq!(o.notice, Some(EqNotice::CannotDeleteLast));
    let mut p = EqualizerPage { preset_index: 2, ..eq_page() };
    let o = finish_delete(&mut p, 2);
    assert_eq!(p.preset_index, 1);
    assert_eq!(o.notice, Some(EqNotice::Deleted));
    let mut p = EqualizerPage { preset_index: 0, ..eq_page() };
    finish_delete(&mut p, 2);
    assert_eq!(p.preset_index, 0);
}

#[test]
fn saved_settings_restart_or_stop_cava() {
    assert_eq!(settings_follow_up(SettingsChange::Cava(true), true, false), (CavaFollowUp::Restart, false));
    assert_eq!(settings_follow_up(SettingsChange::Cava(false), false, true), (CavaFollowUp::Stop, false));
    assert_eq!(settings_follow_up(SettingsChange::NonStopMode(true), false, false), (CavaFollowUp::Keep, false));
    assert_eq!(settings_follow_up(SettingsChange::Equalizer(true), true, true), (CavaFollowUp::Restart, true));
}

#[test]
fn moving_down_then_up_comes_back() {
    let mut p = settings(2);
    handle_settings_key(&mut p, Key::Down);
    handle_settings_key(&mut p, Key::Up);
    assert_eq!(p, settings(2));
    let mut sel = Some(1);
    handle_radio_key(&mut sel, 4, false, Key::Down);
    handle_radio_key(&mut sel, 4, false, Key::Up);
    assert_eq!(sel, Some(1));
    let mut e = EqualizerPage { preset_index: 1, ..eq_page() };
    let mut buf = String::new();
    handle_equalizer_key(&mut e, &mut buf, &names(), press(Key::Down));
    handle_equalizer_key(&mut e, &mut buf, &names(), press(Key::Up));
    assert_eq!(e, EqualizerPage { preset_index: 1, ..eq_page() });
    let mut e = EqualizerPage { editing: true, selected_band: 4, ..eq_page() };
    handle_equalizer_key(&mut e, &mut buf, &names(), press(Key::Down));
    handle_equalizer_key(&mut e, &mut buf, &names(), press(Key::Up));
    assert_eq!(e, EqualizerPage { editing: true, selected_band: 4, ..eq_page() });
}
