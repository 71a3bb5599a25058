use session_windows::{
    set_titlebar_theme, titlebar_color, TitlebarUpdate, DARK_TITLEBAR_COLOR,
    LIGHT_TITLEBAR_COLOR,
};

#[test]
fn dark_theme_color_is_exact() {
    assert_eq!(titlebar_color(true), 0x0034_3030);
    assert_eq!(DARK_TITLEBAR_COLOR, 0x0034_3030);
}

#[test]
fn light_theme_color_is_exact() {
    assert_eq!(titlebar_color(false), 0x00FC_FAFA);
    assert_eq!(LIGHT_TITLEBAR_COLOR, 0x00FC_FAFA);
}

#[test]
fn theme_colors_are_blue_green_red() {
    let dark = titlebar_color(true);
    assert_eq!(dark & 0xFF, 48);
    assert_eq!((dark >> 8) & 0xFF, 48);
    assert_eq!((dark >> 16) & 0xFF, 52);
    assert_eq!(dark >> 24, 0);
    let light = titlebar_color(false);
    assert_eq!(light & 0xFF, 250);
    assert_eq!((light >> 8) & 0xFF, 250);
    assert_eq!((light >> 16) & 0xFF, 252);
    assert_eq!(light >> 24, 0);
}

#[test]
fn theme_reaches_every_window_in_order() {
    let windows = vec![
        String::from("main"),
        String::from("session-window-a"),
        String::from("settings"),
    ];
    let plan = set_titlebar_theme(&windows, true);
    assert_eq!(
        plan,
        Ok(vec![
            TitlebarUpdate { window_label: String::from("main"), color: 0x0034_3030 },
            TitlebarUpdate { window_label: String::from("session-window-a"), color: 0x0034_3030 },
            TitlebarUpdate { window_label: String::from("settings"), color: 0x0034_3030 },
        ])
    );
}

#[test]
fn light_theme_reaches_every_window() {
    let windows = vec![String::from("session-window-1"), String::from("main")];
    let plan = set_titlebar_theme(&windows, false).unwrap();
    assert_eq!(plan.len(), 2);
    assert_eq!(plan[0].window_label, "session-window-1");
    assert_eq!(plan[0].color, 0x00FC_FAFA);
    assert_eq!(plan[1].window_label, "main");
    assert_eq!(plan[1].color, 0x00FC_FAFA);
}

#[test]
fn theme_without_windows_does_nothing_and_succeeds() {
    let windows: Vec<String> = Vec::new();
    assert_eq!(set_titlebar_theme(&windows, true), Ok(Vec::new()));
    assert_eq!(set_titlebar_theme(&windows, false), Ok(Vec::new()));
}
