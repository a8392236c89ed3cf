use ferrosonic::config::equalizer::{
    is_json_file, legacy_preset_names, preset_file_name, sanitize_filename, EQ_BANDS_HZ,
};
use ferrosonic::ui::pages::queue::song_rating_stars;
use ferrosonic::ui::theme::{
    default_gradient, default_horizontal_gradient, hex_color_is_sliceable, hex_to_color,
    parse_gradient, theme_file_is_sliceable, titlecase_filename, Color, ThemeData, ThemeFile,
    ThemeFileCava, ThemeFileColors,
};

#[test]
fn band_frequencies_are_fixed() {
    assert_eq!(EQ_BANDS_HZ, [31, 62, 125, 250, 500, 1000, 2000, 4000, 8000, 16000]);
}

#[test]
fn sanitize_keeps_lowercase_alphanumerics() {
    assert_eq!(sanitize_filename("Flat"), "flat");
    assert_eq!(sanitize_filename("Modern Rock-Indie_2"), "modern_rock_indie_2");
    assert_eq!(sanitize_filename("Rock & Roll!"), "rock__roll");
    assert_eq!(sanitize_filename("Über"), "ber");
}

#[test]
fn sanitize_of_nothing_kept_is_preset() {
    assert_eq!(sanitize_filename(""), "preset");
    assert_eq!(sanitize_filename("!!!"), "preset");
    assert_eq!(sanitize_filename("ñ"), "preset");
}

#[test]
fn preset_file_names_end_in_json() {
    assert_eq!(preset_file_name("Bass Punch"), "bass_punch.json");
    assert_eq!(preset_file_name("?"), "preset.json");
}

#[test]
fn json_extension_ignores_ascii_case() {
    assert!(is_json_file(Some("json")));
    assert!(is_json_file(Some("JSON")));
    assert!(is_json_file(Some("Json")));
    assert!(!is_json_file(Some("jsonc")));
    assert!(!is_json_file(Some("txt")));
    assert!(!is_json_file(Some("")));
    assert!(!is_json_file(None));
}

#[test]
fn legacy_names_are_listed_in_order() {
    assert_eq!(
        legacy_preset_names(),
        vec!["Flat", "Rock", "Pop", "Clasica", "Auditorio", "Radio", "Indie", "Jazz", "Vocal"]
    );
}

#[test]
fn hex_colors_parse_to_rgb() {
    assert_eq!(hex_to_color("#ff0080"), Color::Rgb(255, 0, 128));
    assert_eq!(hex_to_color("A0b1C2"), Color::Rgb(0xa0, 0xb1, 0xc2));
    assert_eq!(hex_to_color("##102030"), Color::Rgb(0x10, 0x20, 0x30));
}

#[test]
fn bad_hex_colors_are_white() {
    assert_eq!(hex_to_color("#fff"), Color::White);
    assert_eq!(hex_to_color("#gg0000"), Color::White);
    assert_eq!(hex_to_color(""), Color::White);
    assert_eq!(hex_to_color("#1234567"), Color::White);
}

#[test]
fn hex_pairs_accept_a_plus_sign() {
    assert_eq!(hex_to_color("#+f+f+f"), Color::Rgb(15, 15, 15));
}

#[test]
fn multibyte_colors_are_not_sliceable() {
    assert!(hex_color_is_sliceable("#ff0080"));
    assert!(hex_color_is_sliceable("#é"));
    assert!(!hex_color_is_sliceable("#aéxyz"));
    assert!(hex_color_is_sliceable("ééé"));
}

fn colors(value: &str) -> ThemeFileColors {
    ThemeFileColors {
        primary: value.to_string(),
        secondary: "#000000".to_string(),
        accent: "#010203".to_string(),
        artist: value.to_string(),
        album: value.to_string(),
        song: value.to_string(),
        muted: value.to_string(),
        highlight_bg: value.to_string(),
        highlight_fg: value.to_string(),
        success: value.to_string(),
        error: value.to_string(),
        playing: value.to_string(),
        played: value.to_string(),
        border_focused: value.to_string(),
        border_unfocused: "nonsense".to_string(),
    }
}

#[test]
fn theme_file_builds_palette_and_gradients() {
    let file = ThemeFile {
        colors: colors("#112233"),
        cava: Some(ThemeFileCava {
            gradient: Some(vec!["#aaaaaa".to_string(), "#bbbbbb".to_string()]),
            horizontal_gradient: None,
        }),
    };
    assert!(theme_file_is_sliceable(&file));
    let t = ThemeData::from_theme_file("Tokyo Night", &file);
    assert_eq!(t.name, "Tokyo Night");
    assert_eq!(t.colors.primary, Color::Rgb(0x11, 0x22, 0x33));
    assert_eq!(t.colors.secondary, Color::Rgb(0, 0, 0));
    assert_eq!(t.colors.accent, Color::Rgb(1, 2, 3));
    assert_eq!(t.colors.border_unfocused, Color::White);
    assert_eq!(t.cava_gradient[0], "#aaaaaa");
    assert_eq!(t.cava_gradient[1], "#bbbbbb");
    assert_eq!(t.cava_gradient[2], "#cc8033");
    assert_eq!(t.cava_gradient[7], "#990000");
    assert_eq!(t.cava_horizontal_gradient[0], "#c45161");
}

#[test]
fn theme_file_without_cava_uses_defaults() {
    let file = ThemeFile { colors: colors("#ffffff"), cava: None };
    let t = ThemeData::from_theme_file("x", &file);
    assert_eq!(t.cava_gradient.to_vec(), default_gradient().to_vec());
    assert_eq!(t.cava_horizontal_gradient.to_vec(), default_horizontal_gradient().to_vec());
}

#[test]
fn theme_file_with_bad_slicing_is_flagged() {
    let file = ThemeFile { colors: colors("#aéxyz"), cava: None };
    assert!(!theme_file_is_sliceable(&file));
}

#[test]
fn gradient_takes_at_most_eight_values() {
    let fallback = default_gradient();
    let values: Vec<String> = (0..10).map(|i| format!("#00000{}", i)).collect();
    let g = parse_gradient(&values, &fallback);
    assert_eq!(g[0], "#000000");
    assert_eq!(g[7], "#000007");
    let g = parse_gradient(&[], &fallback);
    assert_eq!(g.to_vec(), fallback.to_vec());
}

#[test]
fn default_theme_matches_builtin_palette() {
    let t = ThemeData::default_theme();
    assert_eq!(t.name, "Default");
    assert_eq!(t.colors.primary, Color::Cyan);
    assert_eq!(t.colors.highlight_bg, Color::Rgb(102, 51, 153));
    assert_eq!(t.colors.played, Color::Red);
    assert_eq!(t.cava_gradient[0], "#59cc33");
    assert_eq!(t.cava_horizontal_gradient[7], "#434279");
}

#[test]
fn theme_names_are_titlecased() {
    assert_eq!(titlecase_filename("tokyo-night"), "Tokyo Night");
    assert_eq!(titlecase_filename("rose_pine"), "Rose Pine");
    assert_eq!(titlecase_filename("catppuccin"), "Catppuccin");
    assert_eq!(titlecase_filename("--a__b-"), "A B");
    assert_eq!(titlecase_filename(""), "");
    assert_eq!(titlecase_filename("ßeta"), "SSeta");
    assert_eq!(titlecase_filename("gruvbox-Dark"), "Gruvbox Dark");
}

#[test]
fn rating_stars_prefer_user_rating() {
    assert_eq!(song_rating_stars(Some(3), Some(1)), "★★★☆☆");
    assert_eq!(song_rating_stars(Some(9), None), "★★★★★");
    assert_eq!(song_rating_stars(None, Some(2)), "★★☆☆☆");
    assert_eq!(song_rating_stars(None, None), "☆☆☆☆☆");
    assert_eq!(song_rating_stars(Some(0), Some(4)), "☆☆☆☆☆");
    assert_eq!(song_rating_stars(None, Some(200)), "★★★★★");
}

#[test]
fn colors_written_as_hex_read_back() {
    for (r, g, b) in [(0u8, 0u8, 0u8), (255, 255, 255), (1, 16, 171), (102, 51, 153)] {
        let text = format!("#{:02x}{:02x}{:02x}", r, g, b);
        assert!(hex_color_is_sliceable(&text));
        assert_eq!(hex_to_color(&text), Color::Rgb(r, g, b));
    }
}

#[test]
fn sanitized_names_are_stable() {
    for name in ["Bass Punch", "", "???", "a-B_c 9", "ünïcödé"] {
        let once = sanitize_filename(name);
        assert!(!once.is_empty());
        assert!(once.chars().all(|c| c.is_ascii_lowercase() || c.is_ascii_digit() || c == '_'));
        assert_eq!(sanitize_filename(&once), once);
    }
}
