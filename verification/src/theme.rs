//! Title bar colours for the light and the dark theme.

use vstd::prelude::*;

verus! {

/// Caption colour of the dark theme: rgb(48, 48, 52), packed as `0x00BBGGRR`.
pub const DARK_TITLEBAR_COLOR: u32 = 0x00343030;

/// Caption colour of the light theme: rgb(250, 250, 252), packed as `0x00BBGGRR`.
pub const LIGHT_TITLEBAR_COLOR: u32 = 0x00FCFAFA;

/// A colour packed the way the platform compositor reads it: blue in bits
/// 16..24, green in bits 8..16, red in bits 0..8, the top byte zero.
pub open spec fn packed_color(red: u8, green: u8, blue: u8) -> int {
    blue * 0x10000 + green * 0x100 + red
}

/// The caption colour that a theme calls for.
pub open spec fn theme_color(is_dark: bool) -> u32 {
    if is_dark {
        DARK_TITLEBAR_COLOR
    } else {
        LIGHT_TITLEBAR_COLOR
    }
}

/// One title bar to recolour.
#[derive(Debug, PartialEq, Eq)]
pub struct TitlebarUpdate {
    /// Label of the window whose title bar is meant.
    pub window_label: String,
    /// The colour to give it, packed as `0x00BBGGRR`.
    pub color: u32,
}

impl View for TitlebarUpdate {
    type V = (Seq<char>, u32);

    open spec fn view(&self) -> (Seq<char>, u32) {
        (self.window_label@, self.color)
    }
}

impl DeepView for TitlebarUpdate {
    type V = (Seq<char>, u32);

    open spec fn deep_view(&self) -> (Seq<char>, u32) {
        self@
    }
}

/// The updates that recolour every window of `windows` for a theme, one for
/// each window and in the same order.
pub open spec fn theme_updates(windows: Seq<Seq<char>>, is_dark: bool) -> Seq<(Seq<char>, u32)> {
    Seq::new(windows.len(), |i: int| (windows[i], theme_color(is_dark)))
}

/// The caption colour for the dark or the light theme.
pub fn titlebar_color(is_dark: bool) -> (color: u32)
    ensures
        color == theme_color(is_dark),
        is_dark ==> color == 0x00343030,
        !is_dark ==> color == 0x00FCFAFA,
{
    if is_dark {
        DARK_TITLEBAR_COLOR
    } else {
        LIGHT_TITLEBAR_COLOR
    }
}

/// Plans the recolouring of the title bars of all open windows.
///
/// `windows` holds the labels of the host's open windows. The answer names
/// every one of them once, in the order given, with the colour of the theme.
/// It never fails.
pub fn set_titlebar_theme(
    windows: &Vec<String>,
    is_dark: bool,
) -> (plan: Result<Vec<TitlebarUpdate>, String>)
    ensures
        plan is Ok,
        plan->Ok_0.deep_view() == theme_updates(windows.deep_view(), is_dark),
{
    let color: u32 = titlebar_color(is_dark);
    let mut updates: Vec<TitlebarUpdate> = Vec::new();
    let mut i: usize = 0;
    while i < windows.len()
        invariant
            i <= windows.len(),
            color == theme_color(is_dark),
            updates.len() == i,
            forall|k: int| 0 <= k < i ==> (#[trigger] updates[k])@ == (windows[k]@, color),
        decreases windows.len() - i,
    {
        updates.push(TitlebarUpdate { window_label: windows[i].clone(), color });
        i += 1;
    }
    assert(updates.deep_view() =~= theme_updates(windows.deep_view(), is_dark));
    Ok(updates)
}

/// Both theme colours are 24-bit values in `0x00BBGGRR` order: the dark one is
/// rgb(48, 48, 52) and the light one is rgb(250, 250, 252).
pub proof fn lemma_theme_colors_are_packed_rgb()
    ensures
        theme_color(true) == packed_color(48, 48, 52),
        theme_color(false) == packed_color(250, 250, 252),
        forall|is_dark: bool| theme_color(is_dark) < 0x1000000,
{
}

} // verus!
