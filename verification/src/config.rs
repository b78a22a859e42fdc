//! The window configuration: which platform the process runs on, which
//! chrome variant it was built with, and the descriptor of the single
//! window the bootstrapper opens.

use vstd::prelude::*;

verus! {

/// The build target, as far as window chrome is concerned: the one
/// desktop platform that takes a custom title bar, or any other.
#[derive(Clone, Copy, Debug, PartialEq, Eq)]
pub enum Platform {
    MacOs,
    Other,
}

/// The two chrome builds of the application: one draws the title bar
/// as an overlay, the other makes it fully transparent and paints the
/// window background opaque white after the window exists.
#[derive(Clone, Copy, Debug, PartialEq, Eq)]
pub enum ChromeVariant {
    Overlay,
    Transparent,
}

/// How the window's title bar is rendered. `Visible` is the stock
/// style every platform starts from.
#[derive(Clone, Copy, Debug, PartialEq, Eq)]
pub enum TitleBarStyle {
    Visible,
    Overlay,
    Transparent,
}

/// A color with one byte per channel; alpha 255 is fully opaque.
#[derive(Clone, Copy, Debug, PartialEq, Eq)]
pub struct Rgba {
    pub red: u8,
    pub green: u8,
    pub blue: u8,
    pub alpha: u8,
}

/// Opaque white, the one color the background patch ever applies.
pub open spec fn opaque_white() -> Rgba {
    Rgba { red: 255, green: 255, blue: 255, alpha: 255 }
}

/// The descriptor the bootstrapper hands to window construction:
/// label, title, drag-and-drop handling, initial inner size in logical
/// units, and the title-bar style.
#[derive(Clone, Copy, Debug, PartialEq, Eq)]
pub struct WindowConfig {
    pub label: &'static str,
    pub title: &'static str,
    pub drag_drop_enabled: bool,
    pub width: u32,
    pub height: u32,
    pub title_bar_style: TitleBarStyle,
}

/// The title-bar style each platform and variant ends up with: the
/// desktop platform takes its variant's custom style, every other
/// platform keeps the stock one.
pub open spec fn chrome_style(p: Platform, v: ChromeVariant) -> TitleBarStyle {
    match p {
        Platform::MacOs => match v {
            ChromeVariant::Overlay => TitleBarStyle::Overlay,
            ChromeVariant::Transparent => TitleBarStyle::Transparent,
        },
        Platform::Other => TitleBarStyle::Visible,
    }
}

/// The post-construction background patch: only the transparent build
/// on the desktop platform paints the window, and it paints it opaque
/// white; everywhere else no color call is made.
pub open spec fn background_patch_spec(p: Platform, v: ChromeVariant) -> Option<Rgba> {
    if p is MacOs && v is Transparent {
        Some(opaque_white())
    } else {
        None
    }
}

/// What the main window's descriptor must look like on platform `p`
/// under variant `v`: label "main", empty title, drag-and-drop
/// disabled, 800 by 600, and the chrome the platform calls for.
pub open spec fn is_main_config(c: WindowConfig, p: Platform, v: ChromeVariant) -> bool {
    &&& c.label@ == "main"@
    &&& c.title@ == ""@
    &&& !c.drag_drop_enabled
    &&& c.width == 800
    &&& c.height == 600
    &&& c.title_bar_style == chrome_style(p, v)
}

/// Builds a window descriptor step by step, as the bootstrapper does.
pub struct WindowBuilder {
    pub cfg: WindowConfig,
}

impl WindowBuilder {
    /// A fresh builder for a window with the given label: empty title,
    /// drag-and-drop handling on, 800 by 600, stock title bar.
    pub fn new(label: &'static str) -> (b: Self)
        ensures
            b.cfg.label == label,
            b.cfg.title@ == ""@,
            b.cfg.drag_drop_enabled,
            b.cfg.width == 800,
            b.cfg.height == 600,
            b.cfg.title_bar_style is Visible,
    {
        WindowBuilder {
            cfg: WindowConfig {
                label,
                title: "",
                drag_drop_enabled: true,
                width: 800,
                height: 600,
                title_bar_style: TitleBarStyle::Visible,
            },
        }
    }

    /// Sets the window title and changes nothing else.
    pub fn title(self, t: &'static str) -> (b: Self)
        ensures
            b.cfg.title == t,
            b.cfg.label == self.cfg.label,
            b.cfg.drag_drop_enabled == self.cfg.drag_drop_enabled,
            b.cfg.width == self.cfg.width,
            b.cfg.height == self.cfg.height,
            b.cfg.title_bar_style == self.cfg.title_bar_style,
    {
        WindowBuilder { cfg: WindowConfig { title: t, ..self.cfg } }
    }

    /// Turns the drag-and-drop handler off and changes nothing else.
    pub fn disable_drag_drop_handler(self) -> (b: Self)
        ensures
            !b.cfg.drag_drop_enabled,
            b.cfg.label == self.cfg.label,
            b.cfg.title == self.cfg.title,
            b.cfg.width == self.cfg.width,
            b.cfg.height == self.cfg.height,
            b.cfg.title_bar_style == self.cfg.title_bar_style,
    {
        WindowBuilder { cfg: WindowConfig { drag_drop_enabled: false, ..self.cfg } }
    }

    /// Sets the initial inner size in logical units and changes
    /// nothing else.
    pub fn inner_size(self, width: u32, height: u32) -> (b: Self)
        ensures
            b.cfg.width == width,
            b.cfg.height == height,
            b.cfg.label == self.cfg.label,
            b.cfg.title == self.cfg.title,
            b.cfg.drag_drop_enabled == self.cfg.drag_drop_enabled,
            b.cfg.title_bar_style == self.cfg.title_bar_style,
    {
        WindowBuilder { cfg: WindowConfig { width, height, ..self.cfg } }
    }

    /// Sets the title-bar style and changes nothing else.
    pub fn title_bar_style(self, s: TitleBarStyle) -> (b: Self)
        ensures
            b.cfg.title_bar_style == s,
            b.cfg.label == self.cfg.label,
            b.cfg.title == self.cfg.title,
            b.cfg.drag_drop_enabled == self.cfg.drag_drop_enabled,
            b.cfg.width == self.cfg.width,
            b.cfg.height == self.cfg.height,
    {
        WindowBuilder { cfg: WindowConfig { title_bar_style: s, ..self.cfg } }
    }

    /// Hands the finished descriptor out.
    pub fn build(self) -> (c: WindowConfig)
        ensures
            c == self.cfg,
    {
        self.cfg
    }
}

/// The descriptor of the application's main window on platform `p`
/// under variant `v`: label "main", empty title, drag-and-drop
/// disabled, 800 by 600, and the platform's chrome.
pub fn main_window_config(p: Platform, v: ChromeVariant) -> (c: WindowConfig)
    ensures
        is_main_config(c, p, v),
        c.title@.len() == 0,
{
    proof {
        reveal_strlit("");
    }
    let b = WindowBuilder::new("main").title("").disable_drag_drop_handler().inner_size(800, 600);
    match p {
        Platform::MacOs => {
            let s = match v {
                ChromeVariant::Overlay => TitleBarStyle::Overlay,
                ChromeVariant::Transparent => TitleBarStyle::Transparent,
            };
            b.title_bar_style(s).build()
        },
        Platform::Other => b.build(),
    }
}

/// The color the bootstrapper paints the finished window with, if any:
/// opaque white for the transparent build on the desktop platform,
/// nothing anywhere else.
pub fn background_patch(p: Platform, v: ChromeVariant) -> (r: Option<Rgba>)
    ensures
        r == background_patch_spec(p, v),
{
    match (p, v) {
        (Platform::MacOs, ChromeVariant::Transparent) => Some(
            Rgba { red: 255, green: 255, blue: 255, alpha: 255 },
        ),
        _ => None,
    }
}

/// On the desktop platform the title bar is never the stock style —
/// it is the overlay or the transparent one, after the variant; on
/// every other platform it is always the stock style.
pub proof fn lemma_desktop_chrome(p: Platform, v: ChromeVariant)
    ensures
        p is MacOs ==> chrome_style(p, v) != TitleBarStyle::Visible,
        p is MacOs ==> (chrome_style(p, v) is Overlay || chrome_style(p, v) is Transparent),
        p is Other ==> chrome_style(p, v) is Visible,
{
}

/// A background color is applied exactly for the transparent build on
/// the desktop platform, and the color applied is always opaque white.
pub proof fn lemma_background_patch(p: Platform, v: ChromeVariant)
    ensures
        background_patch_spec(p, v) is Some <==> (p is MacOs && v is Transparent),
        background_patch_spec(p, v) matches Some(c) ==> c == opaque_white(),
{
}

} // verus!
