//! The colours of the interface: one palette with a colour for each role,
//! derived from two mode flags, and the colours that each chat message takes
//! from it.

use crate::sent_message::{BkgColor, FontColor, IsMine};
use vstd::prelude::*;

verus! {

/// An opaque sRGB colour with eight bits to a channel, written `0xRRGGBB`.
pub type Color = u32;

pub const COLOR_WHITE: Color = 0xFFFFFF;

pub const COLOR_BLACK: Color = 0x000000;

// Bubble colours
pub const BLUE_BUBBLE_COLOR: Color = 0x0281FD;

pub const GREEN_BUBBLE_COLOR: Color = 0x33CE5A;

// Dark mode
/// Background of the topmost area.
pub const DKMODE_TOP_BKG_COLOR: Color = 0x121212;

pub const DKMODE_TOP_RULE_COLOR: Color = 0x0E0E0E;

/// Background of the main area.
pub const DKMODE_MID_BKG_COLOR: Color = COLOR_BLACK;

/// Read, Sent, Delivered, date and time.
pub const DKMODE_SYS_TEXT_COLOR: Color = 0x767676;

/// Symbols on keys.
pub const DKMODE_KEY_TEXT_COLOR: Color = COLOR_WHITE;

/// Most keys.
pub const DKMODE_KEY_COLOR: Color = 0x606060;

/// Shift and caps.
pub const DKMODE_CAPS_COLOR: Color = 0xD1D1D1;

/// 123, return and backspace.
pub const DKMODE_BKSP_COLOR: Color = 0x3B3B3B;

/// Background of the keyboard.
pub const DKMODE_KEYBOARD_COLOR: Color = 0x1B1B1B;

pub const DKMODE_THEIR_BUBBLE_COLOR: Color = 0x26262A;

pub const DKMODE_THEIR_TEXT_COLOR: Color = COLOR_WHITE;

// Light mode
pub const LTMODE_TOP_BKG_COLOR: Color = 0xF9F9F9;

pub const LTMODE_TOP_RULE_COLOR: Color = 0x767676;

/// Background of the main area.
pub const LTMODE_MID_BKG_COLOR: Color = COLOR_WHITE;

/// Read, Sent, Delivered, date and time.
pub const LTMODE_SYS_TEXT_COLOR: Color = 0x767676;

/// Symbols on keys.
pub const LTMODE_KEY_TEXT_COLOR: Color = COLOR_BLACK;

/// Most keys.
pub const LTMODE_KEY_COLOR: Color = COLOR_WHITE;

/// Shift and caps.
pub const LTMODE_CAPS_COLOR: Color = LTMODE_KEY_COLOR;

/// 123, return and backspace.
pub const LTMODE_BKSP_COLOR: Color = LTMODE_KEY_COLOR;

/// Background of the keyboard.
pub const LTMODE_KEYBOARD_COLOR: Color = 0xE3E5E6;

pub const LTMODE_THEIR_BUBBLE_COLOR: Color = 0xE9E9EA;

pub const LTMODE_THEIR_TEXT_COLOR: Color = COLOR_BLACK;

// Defaults
pub const DEFAULT_TOP_BKG_COLOR: Color = DKMODE_TOP_BKG_COLOR;

pub const DEFAULT_TOP_RULE_COLOR: Color = DKMODE_TOP_RULE_COLOR;

pub const DEFAULT_MID_BKG_COLOR: Color = DKMODE_MID_BKG_COLOR;

pub const DEFAULT_SYS_TEXT_COLOR: Color = DKMODE_SYS_TEXT_COLOR;

pub const DEFAULT_KEY_TEXT_COLOR: Color = DKMODE_KEY_TEXT_COLOR;

pub const DEFAULT_KEY_COLOR: Color = DKMODE_KEY_COLOR;

pub const DEFAULT_CAPS_COLOR: Color = DKMODE_CAPS_COLOR;

pub const DEFAULT_BKSP_COLOR: Color = DKMODE_BKSP_COLOR;

pub const DEFAULT_KEYBOARD_COLOR: Color = DKMODE_KEYBOARD_COLOR;

pub const DEFAULT_MY_BUBBLE_COLOR: Color = BLUE_BUBBLE_COLOR;

pub const DEFAULT_MY_TEXT_COLOR: Color = COLOR_WHITE;

pub const DEFAULT_THEIR_BUBBLE_COLOR: Color = DKMODE_THEIR_BUBBLE_COLOR;

pub const DEFAULT_THEIR_TEXT_COLOR: Color = DKMODE_THEIR_TEXT_COLOR;

/// The three channels of `color`, red first.
pub fn channels(color: Color) -> (rgb: (u8, u8, u8))
    ensures
        rgb.0 == (color >> 16) & 0xFF,
        rgb.1 == (color >> 8) & 0xFF,
        rgb.2 == color & 0xFF,
        color <= 0xFFFFFF ==> color == rgb.0 * 0x10000 + rgb.1 * 0x100 + rgb.2,
{
    let red: u32 = (color >> 16) & 0xFF;
    let green: u32 = (color >> 8) & 0xFF;
    let blue: u32 = color & 0xFF;
    assert(red <= 0xFF && green <= 0xFF && blue <= 0xFF && (color <= 0xFFFFFF ==> color == red
        * 0x10000 + green * 0x100 + blue)) by (bit_vector)
        requires
            red == (color >> 16) & 0xFF,
            green == (color >> 8) & 0xFF,
            blue == color & 0xFF,
    ;
    (red as u8, green as u8, blue as u8)
}

/// The palette: one colour for each role in the interface.
#[derive(Clone, Copy, PartialEq, Eq, Debug, Structural)]
pub struct ColorScheme {
    pub top_bkg_color: Color,
    pub top_rule_color: Color,
    pub mid_bkg_color: Color,
    pub sys_text_color: Color,
    pub key_text_color: Color,
    pub key_color: Color,
    pub key_color_caps: Color,
    pub key_color_bksp: Color,
    pub keyboard_color: Color,
    pub my_bubble_color: Color,
    pub my_text_color: Color,
    pub their_bubble_color: Color,
    pub their_text_color: Color,
}

impl ColorScheme {
    /// The palette that belongs to a pair of mode flags. Dark or light decides
    /// every role but the player's own two; the platform style decides the
    /// player's bubble, green for Android and blue otherwise; the player's
    /// text is white throughout.
    pub open spec fn derived(dark: bool, android: bool) -> ColorScheme {
        ColorScheme {
            top_bkg_color: if dark {
                DKMODE_TOP_BKG_COLOR
            } else {
                LTMODE_TOP_BKG_COLOR
            },
            top_rule_color: if dark {
                DKMODE_TOP_RULE_COLOR
            } else {
                LTMODE_TOP_RULE_COLOR
            },
            mid_bkg_color: if dark {
                DKMODE_MID_BKG_COLOR
            } else {
                LTMODE_MID_BKG_COLOR
            },
            sys_text_color: if dark {
                DKMODE_SYS_TEXT_COLOR
            } else {
                LTMODE_SYS_TEXT_COLOR
            },
            key_text_color: if dark {
                DKMODE_KEY_TEXT_COLOR
            } else {
                LTMODE_KEY_TEXT_COLOR
            },
            key_color: if dark {
                DKMODE_KEY_COLOR
            } else {
                LTMODE_KEY_COLOR
            },
            key_color_caps: if dark {
                DKMODE_CAPS_COLOR
            } else {
                LTMODE_CAPS_COLOR
            },
            key_color_bksp: if dark {
                DKMODE_BKSP_COLOR
            } else {
                LTMODE_BKSP_COLOR
            },
            keyboard_color: if dark {
                DKMODE_KEYBOARD_COLOR
            } else {
                LTMODE_KEYBOARD_COLOR
            },
            my_bubble_color: Self::platform_bubble(android),
            my_text_color: DEFAULT_MY_TEXT_COLOR,
            their_bubble_color: if dark {
                DKMODE_THEIR_BUBBLE_COLOR
            } else {
                LTMODE_THEIR_BUBBLE_COLOR
            },
            their_text_color: if dark {
                DKMODE_THEIR_TEXT_COLOR
            } else {
                LTMODE_THEIR_TEXT_COLOR
            },
        }
    }

    /// The colour of the player's bubble under a platform style.
    pub open spec fn platform_bubble(android: bool) -> Color {
        if android {
            GREEN_BUBBLE_COLOR
        } else {
            BLUE_BUBBLE_COLOR
        }
    }

    /// This palette with the player's bubble set to `bubble`.
    pub open spec fn with_my_bubble(self, bubble: Color) -> ColorScheme {
        ColorScheme { my_bubble_color: bubble, ..self }
    }

    /// The text colour of a message by its sender.
    pub open spec fn text_color(self, is_mine: bool) -> Color {
        if is_mine {
            self.my_text_color
        } else {
            self.their_text_color
        }
    }

    /// The bubble colour of a message by its sender.
    pub open spec fn bubble_color(self, is_mine: bool) -> Color {
        if is_mine {
            self.my_bubble_color
        } else {
            self.their_bubble_color
        }
    }

    /// A change of the platform style alone, applied to the palette of the
    /// flags as they were, gives the palette of the flags as they are. So the
    /// palette stays the one derived from the current flags whichever of the
    /// two reactions ran last.
    pub proof fn lemma_platform_change_keeps_palette_derived(dark: bool, before: bool, after: bool)
        ensures
            Self::derived(dark, before).with_my_bubble(Self::platform_bubble(after))
                == Self::derived(dark, after),
    {
    }

    /// Every colour of a derived palette fits in its three channels.
    pub proof fn lemma_derived_colors_are_rgb(dark: bool, android: bool)
        ensures
            ({
                let scheme = Self::derived(dark, android);
                &&& scheme.top_bkg_color <= 0xFFFFFF
                &&& scheme.top_rule_color <= 0xFFFFFF
                &&& scheme.mid_bkg_color <= 0xFFFFFF
                &&& scheme.sys_text_color <= 0xFFFFFF
                &&& scheme.key_text_color <= 0xFFFFFF
                &&& scheme.key_color <= 0xFFFFFF
                &&& scheme.key_color_caps <= 0xFFFFFF
                &&& scheme.key_color_bksp <= 0xFFFFFF
                &&& scheme.keyboard_color <= 0xFFFFFF
                &&& scheme.my_bubble_color <= 0xFFFFFF
                &&& scheme.my_text_color <= 0xFFFFFF
                &&& scheme.their_bubble_color <= 0xFFFFFF
                &&& scheme.their_text_color <= 0xFFFFFF
            }),
    {
    }
}

impl Default for ColorScheme {
    /// The palette of the default flags: dark, with the blue bubble.
    fn default() -> (scheme: ColorScheme)
        ensures
            scheme == ColorScheme::derived(true, false),
    {
        ColorScheme {
            top_bkg_color: DEFAULT_TOP_BKG_COLOR,
            top_rule_color: DEFAULT_TOP_RULE_COLOR,
            mid_bkg_color: DEFAULT_MID_BKG_COLOR,
            sys_text_color: DEFAULT_SYS_TEXT_COLOR,
            key_text_color: DEFAULT_KEY_TEXT_COLOR,
            key_color: DEFAULT_KEY_COLOR,
            key_color_caps: DEFAULT_CAPS_COLOR,
            key_color_bksp: DEFAULT_BKSP_COLOR,
            keyboard_color: DEFAULT_KEYBOARD_COLOR,
            my_bubble_color: DEFAULT_MY_BUBBLE_COLOR,
            my_text_color: DEFAULT_MY_TEXT_COLOR,
            their_bubble_color: DEFAULT_THEIR_BUBBLE_COLOR,
            their_text_color: DEFAULT_THEIR_TEXT_COLOR,
        }
    }
}

/// Whether the interface is shown dark. On by default.
#[derive(Clone, Copy, PartialEq, Eq, Debug, Structural)]
pub struct DarkModeEnabled(pub bool);

impl Default for DarkModeEnabled {
    fn default() -> (flag: DarkModeEnabled)
        ensures
            flag == DarkModeEnabled(true),
    {
        DarkModeEnabled(true)
    }
}

/// Whether the transcript has the Android look, with green bubbles. Off by
/// default.
#[derive(Clone, Copy, PartialEq, Eq, Debug, Structural)]
pub struct AndroidModeEnabled(pub bool);

impl Default for AndroidModeEnabled {
    fn default() -> (flag: AndroidModeEnabled)
        ensures
            flag == AndroidModeEnabled(false),
    {
        AndroidModeEnabled(false)
    }
}

/// Runs when the dark-mode flag has changed: replaces the whole palette by
/// the one derived from the two flags. What the palette held before has no
/// part in the result.
pub fn on_dark_mode_enabled_changed(
    dark_mode_enabled: &DarkModeEnabled,
    android_mode_enabled: &AndroidModeEnabled,
    color_scheme: &mut ColorScheme,
)
    ensures
        *final(color_scheme) == ColorScheme::derived(dark_mode_enabled.0, android_mode_enabled.0),
{
    let dark = dark_mode_enabled.0;
    color_scheme.top_bkg_color = if dark {
        DKMODE_TOP_BKG_COLOR
    } else {
        LTMODE_TOP_BKG_COLOR
    };
    color_scheme.top_rule_color = if dark {
        DKMODE_TOP_RULE_COLOR
    } else {
        LTMODE_TOP_RULE_COLOR
    };
    color_scheme.mid_bkg_color = if dark {
        DKMODE_MID_BKG_COLOR
    } else {
        LTMODE_MID_BKG_COLOR
    };
    color_scheme.sys_text_color = if dark {
        DKMODE_SYS_TEXT_COLOR
    } else {
        LTMODE_SYS_TEXT_COLOR
    };
    color_scheme.key_text_color = if dark {
        DKMODE_KEY_TEXT_COLOR
    } else {
        LTMODE_KEY_TEXT_COLOR
    };
    color_scheme.key_color = if dark {
        DKMODE_KEY_COLOR
    } else {
        LTMODE_KEY_COLOR
    };
    color_scheme.key_color_caps = if dark {
        DKMODE_CAPS_COLOR
    } else {
        LTMODE_CAPS_COLOR
    };
    color_scheme.key_color_bksp = if dark {
        DKMODE_BKSP_COLOR
    } else {
        LTMODE_BKSP_COLOR
    };
    color_scheme.keyboard_color = if dark {
        DKMODE_KEYBOARD_COLOR
    } else {
        LTMODE_KEYBOARD_COLOR
    };
    color_scheme.my_bubble_color = if android_mode_enabled.0 {
        GREEN_BUBBLE_COLOR
    } else {
        BLUE_BUBBLE_COLOR
    };
    color_scheme.my_text_color = DEFAULT_MY_TEXT_COLOR;
    color_scheme.their_bubble_color = if dark {
        DKMODE_THEIR_BUBBLE_COLOR
    } else {
        LTMODE_THEIR_BUBBLE_COLOR
    };
    color_scheme.their_text_color = if dark {
        DKMODE_THEIR_TEXT_COLOR
    } else {
        LTMODE_THEIR_TEXT_COLOR
    };
}

/// Runs when the platform-style flag has changed: sets the player's bubble
/// to the colour of the style and leaves every other role as it was. The
/// colours of the other party do not follow the style.
///
/// A palette that was derived from the flags before the change is, after it,
/// the one derived from the flags as they are.
pub fn on_android_mode_enabled_changed(
    android_mode_enabled: &AndroidModeEnabled,
    color_scheme: &mut ColorScheme,
)
    ensures
        *final(color_scheme) == old(color_scheme).with_my_bubble(
            ColorScheme::platform_bubble(android_mode_enabled.0),
        ),
        forall|dark: bool, before: bool|
            *old(color_scheme) == #[trigger] ColorScheme::derived(dark, before)
                ==> *final(color_scheme) == ColorScheme::derived(dark, android_mode_enabled.0),
{
    proof {
        assert forall|dark: bool, before: bool|
            *color_scheme == #[trigger] ColorScheme::derived(dark, before) implies color_scheme
                .with_my_bubble(ColorScheme::platform_bubble(android_mode_enabled.0))
                == ColorScheme::derived(dark, android_mode_enabled.0) by {
            ColorScheme::lemma_platform_change_keeps_palette_derived(
                dark,
                before,
                android_mode_enabled.0,
            );
        }
    }
    color_scheme.my_bubble_color = if android_mode_enabled.0 {
        GREEN_BUBBLE_COLOR
    } else {
        BLUE_BUBBLE_COLOR
    };
}

/// Runs when the palette has changed: gives every chat message the text and
/// bubble colour that the palette has for its sender. `msgs` holds, for each
/// message, its two colours and its sender flag.
///
/// No message is skipped, none is added or dropped, and no sender flag
/// changes.
pub fn update_colors_on_color_scheme_change(
    msgs: &mut Vec<(FontColor, BkgColor, IsMine)>,
    color_scheme: &ColorScheme,
)
    ensures
        final(msgs)@.len() == old(msgs)@.len(),
        forall|i: int|
            0 <= i < old(msgs)@.len() ==> {
                let is_mine = (#[trigger] old(msgs)@[i]).2;
                final(msgs)@[i] == (
                    FontColor(color_scheme.text_color(is_mine.0)),
                    BkgColor(color_scheme.bubble_color(is_mine.0)),
                    is_mine,
                )
            },
{
    let mut i: usize = 0;
    while i < msgs.len()
        invariant
            i <= msgs@.len(),
            msgs@.len() == old(msgs)@.len(),
            forall|j: int|
                0 <= j < i ==> {
                    let is_mine = (#[trigger] old(msgs)@[j]).2;
                    msgs@[j] == (
                        FontColor(color_scheme.text_color(is_mine.0)),
                        BkgColor(color_scheme.bubble_color(is_mine.0)),
                        is_mine,
                    )
                },
            forall|j: int| i <= j < msgs@.len() ==> msgs@[j] == old(msgs)@[j],
        decreases msgs@.len() - i,
    {
        let is_mine = msgs[i].2;
        let font_color = FontColor(
            if is_mine.0 {
                color_scheme.my_text_color
            } else {
                color_scheme.their_text_color
            },
        );
        let bkg_color = BkgColor(
            if is_mine.0 {
                color_scheme.my_bubble_color
            } else {
                color_scheme.their_bubble_color
            },
        );
        msgs.set(i, (font_color, bkg_color, is_mine));
        i += 1;
    }
}

} // verus!
