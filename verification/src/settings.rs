//! The persisted overlay settings and the keyboard shortcuts that edit them.
use vstd::prelude::*;

verus! {

/// Step by which `+` and `-` change the background opacity.
pub const OPACITY_STEP: u8 = 5;

/// The settings that the overlay keeps between runs.
#[derive(Clone, Copy, Debug, PartialEq, Eq)]
pub struct Settings {
    /// Show the frame-rate counter.
    pub fps_toggle: bool,
    /// Show the volume circle.
    pub circle_toggle: bool,
    /// Analyse the frequency spectrum instead of the waveform.
    pub ffi_enabled: bool,
    /// Alpha of the background.
    pub opacity: u8,
    /// Window width and height.
    pub size: (i32, i32),
    /// The hint box has been dismissed.
    pub notif_closed: bool,
}

impl Settings {
    /// Builds settings from their six fields.
    pub fn new(
        fps_toggle: bool,
        circle_toggle: bool,
        ffi_enabled: bool,
        opacity: u8,
        size: (i32, i32),
        notif_closed: bool,
    ) -> (s: Self)
        ensures
            s == (Settings { fps_toggle, circle_toggle, ffi_enabled, opacity, size, notif_closed }),
    {
        Settings { fps_toggle, circle_toggle, ffi_enabled, opacity, size, notif_closed }
    }

    /// The settings of a first run: counter and circle shown, waveform
    /// mode, opaque, 1024 x 1000, hint box shown.
    pub open spec fn initial() -> Settings {
        Settings {
            fps_toggle: true,
            circle_toggle: true,
            ffi_enabled: false,
            opacity: 255,
            size: (1024, 1000),
            notif_closed: false,
        }
    }

    /// Records the answer of the hint box: either of its buttons (0 or 1)
    /// dismisses it, any other answer leaves the settings as they are.
    pub fn record_hint_answer(&mut self, answer: i32)
        ensures
            *final(self) == (if answer == 0 || answer == 1 {
                Settings { notif_closed: true, ..*old(self) }
            } else {
                *old(self)
            }),
    {
        if answer == 1 || answer == 0 {
            self.notif_closed = true;
        }
    }
}

impl Default for Settings {
    fn default() -> (s: Self)
        ensures
            s == Settings::initial(),
    {
        Settings::new(true, true, false, 255, (1024, 1000), false)
    }
}

/// The shortcut keys that were pressed in this frame.
#[derive(Clone, Copy, Debug, PartialEq, Eq, Structural)]
pub struct KeyPresses {
    pub g: bool,
    pub h: bool,
    pub equal: bool,
    pub minus: bool,
    pub backspace: bool,
    pub f11: bool,
    pub b: bool,
}

/// What the window has to do after a shortcut.
#[derive(Clone, Copy, Debug, PartialEq, Eq, Structural)]
pub enum WindowRequest {
    Nothing,
    Minimize,
    Maximize,
    Resize { width: i32, height: i32 },
}

/// The opacity after `-`: five less, unless that would go below zero.
pub open spec fn opacity_down(o: u8) -> u8 {
    if o >= 5 { (o - 5) as u8 } else { o }
}

/// The opacity after `+`: five more, unless that would go above 255.
pub open spec fn opacity_up(o: u8) -> u8 {
    if o <= 250 { (o + 5) as u8 } else { o }
}

/// The shortcut that wins when several keys are down: the first of
/// `g`, `h`, `=`/`-`, backspace, F11, `b`.
pub open spec fn settings_after_keys(s: Settings, k: KeyPresses) -> Settings {
    if k.g {
        Settings { circle_toggle: !s.circle_toggle, ..s }
    } else if k.h {
        Settings { fps_toggle: !s.fps_toggle, ..s }
    } else if k.equal || k.minus {
        if k.minus {
            Settings { opacity: opacity_down(s.opacity), ..s }
        } else {
            Settings { opacity: opacity_up(s.opacity), ..s }
        }
    } else if k.backspace || k.f11 {
        s
    } else if k.b {
        Settings { notif_closed: false, ..s }
    } else {
        s
    }
}

/// The window request that the keys give.
pub open spec fn request_after_keys(
    s: Settings,
    k: KeyPresses,
    window_minimized: bool,
    monitor_size: (i32, i32),
    size_after_resize: (i32, i32),
) -> WindowRequest {
    if k.g || k.h || k.equal || k.minus {
        WindowRequest::Nothing
    } else if k.backspace {
        if !window_minimized { WindowRequest::Minimize } else { WindowRequest::Maximize }
    } else if k.f11 {
        if s.size.0 < monitor_size.0 && s.size.1 < monitor_size.1 {
            WindowRequest::Resize { width: monitor_size.0, height: monitor_size.1 }
        } else {
            WindowRequest::Resize { width: size_after_resize.0, height: size_after_resize.1 }
        }
    } else {
        WindowRequest::Nothing
    }
}

/// Applies the shortcuts of one frame: `g` shows or hides the volume
/// circle, `h` the frame counter, `-` and `=` lower and raise the opacity
/// by five within 0..=255, backspace minimizes the window or restores it,
/// What each shortcut does, when it is the first one pressed in the
/// order g, h, `-`/`=`, backspace, F11, b: g flips the volume circle, h
/// flips the frame counter, `-` lowers the opacity by 5 when it is at
/// least 5 (and wins over `=`), `=` raises it by 5 when it is at most 250,
/// backspace minimizes a window that is not minimized and restores one
/// that is, b brings the hint box back; nothing pressed changes nothing.
/// Only F11 and backspace ask anything of the window.
pub proof fn lemma_shortcut_effects(
    s: Settings,
    k: KeyPresses,
    window_minimized: bool,
    monitor_size: (i32, i32),
    size_after_resize: (i32, i32),
)
    ensures
        ({
            let t = settings_after_keys(s, k);
            let r = request_after_keys(s, k, window_minimized, monitor_size, size_after_resize);
            let nothing = WindowRequest::Nothing;
            &&& k.g ==> t == (Settings { circle_toggle: !s.circle_toggle, ..s }) && r == nothing
            &&& (!k.g && k.h) ==> t == (Settings { fps_toggle: !s.fps_toggle, ..s }) && r == nothing
            &&& (!k.g && !k.h && k.minus) ==> r == nothing && t == (Settings {
                opacity: (if s.opacity >= 5 { s.opacity - 5 } else { s.opacity as int }) as u8,
                ..s
            })
            &&& (!k.g && !k.h && !k.minus && k.equal) ==> r == nothing && t == (Settings {
                opacity: (if s.opacity <= 250 { s.opacity + 5 } else { s.opacity as int }) as u8,
                ..s
            })
            &&& (!k.g && !k.h && !k.minus && !k.equal && k.backspace) ==> t == s && r == (if window_minimized {
                WindowRequest::Maximize
            } else {
                WindowRequest::Minimize
            })
            &&& (!k.g && !k.h && !k.minus && !k.equal && !k.backspace && !k.f11 && k.b) ==> r == nothing
                && t == (Settings { notif_closed: false, ..s })
            &&& (!k.g && !k.h && !k.minus && !k.equal && !k.backspace && !k.f11 && !k.b) ==> r == nothing
                && t == s
            &&& (r is Minimize || r is Maximize) ==> k.backspace
            &&& r is Resize ==> k.f11
        }),
{
}

/// F11 switches between the monitor's size and `size_after_resize`, and
/// `b` brings the hint box back. Only the first of these that is pressed
/// takes effect.
pub fn listen_to_other_keybindings(
    settings: &mut Settings,
    keys: KeyPresses,
    window_minimized: bool,
    monitor_size: (i32, i32),
    size_after_resize: (i32, i32),
) -> (req: WindowRequest)
    ensures
        *final(settings) == settings_after_keys(*old(settings), keys),
        req == request_after_keys(*old(settings), keys, window_minimized, monitor_size, size_after_resize),
{
    if keys.g {
        settings.circle_toggle = !settings.circle_toggle;
        WindowRequest::Nothing
    } else if keys.h {
        settings.fps_toggle = !settings.fps_toggle;
        WindowRequest::Nothing
    } else if keys.equal || keys.minus {
        if keys.minus {
            if settings.opacity >= OPACITY_STEP {
                settings.opacity -= OPACITY_STEP;
            }
        } else {
            if settings.opacity <= 250 {
                settings.opacity += OPACITY_STEP;
            }
        }
        WindowRequest::Nothing
    } else if keys.backspace {
        if !window_minimized {
            WindowRequest::Minimize
        } else {
            WindowRequest::Maximize
        }
    } else if keys.f11 {
        if settings.size.0 < monitor_size.0 && settings.size.1 < monitor_size.1 {
            WindowRequest::Resize { width: monitor_size.0, height: monitor_size.1 }
        } else {
            WindowRequest::Resize { width: size_after_resize.0, height: size_after_resize.1 }
        }
    } else if keys.b {
        settings.notif_closed = false;
        WindowRequest::Nothing
    } else {
        WindowRequest::Nothing
    }
}

/// Lowering the opacity and raising it again gives back the opacity one
/// started from, whenever it was at least 5.
pub proof fn lemma_opacity_down_then_up(o: u8)
    requires
        o >= 5,
    ensures
        opacity_up(opacity_down(o)) == o,
{
}

/// Raising the opacity and lowering it again gives back the opacity one
/// started from, whenever it was at most 250.
pub proof fn lemma_opacity_up_then_down(o: u8)
    requires
        o <= 250,
    ensures
        opacity_down(opacity_up(o)) == o,
{
}

/// The opacity steps never leave a multiple of five.
pub proof fn lemma_opacity_keeps_multiple_of_step(o: u8)
    requires
        o % 5 == 0,
    ensures
        opacity_up(o) % 5 == 0,
        opacity_down(o) % 5 == 0,
{
}

/// One shortcut changes at most one setting, and never the window size
/// or the analysis mode.
pub proof fn lemma_keys_touch_one_setting(s: Settings, k: KeyPresses)
    ensures
        ({
            let t = settings_after_keys(s, k);
            &&& t.size == s.size
            &&& t.ffi_enabled == s.ffi_enabled
            &&& (t.circle_toggle != s.circle_toggle) ==> (t.fps_toggle == s.fps_toggle
                && t.opacity == s.opacity && t.notif_closed == s.notif_closed)
            &&& (t.fps_toggle != s.fps_toggle) ==> (t.opacity == s.opacity
                && t.notif_closed == s.notif_closed)
            &&& (t.opacity != s.opacity) ==> t.notif_closed == s.notif_closed
        }),
{
}

/// F11 switches to the monitor's size only when the window is strictly
/// smaller than the monitor in both width and height; in every other case
/// it goes back to the saved size. It changes no setting.
pub proof fn lemma_f11_fullscreen_toggle(
    s: Settings,
    k: KeyPresses,
    window_minimized: bool,
    monitor_size: (i32, i32),
    size_after_resize: (i32, i32),
)
    requires
        k.f11,
        !k.g,
        !k.h,
        !k.equal,
        !k.minus,
        !k.backspace,
    ensures
        settings_after_keys(s, k) == s,
        ({
            let r = request_after_keys(s, k, window_minimized, monitor_size, size_after_resize);
            let to_monitor = (WindowRequest::Resize { width: monitor_size.0, height: monitor_size.1 });
            let to_saved = (WindowRequest::Resize { width: size_after_resize.0, height: size_after_resize.1 });
            &&& (s.size.0 < monitor_size.0 && s.size.1 < monitor_size.1) ==> r == to_monitor
            &&& (s.size.0 >= monitor_size.0 || s.size.1 >= monitor_size.1) ==> r == to_saved
        }),
{
}

/// Pressing `g` twice, or `h` twice, leaves the settings as they were.
pub proof fn lemma_toggles_are_involutions(s: Settings, k: KeyPresses)
    requires
        k.g || k.h,
    ensures
        settings_after_keys(settings_after_keys(s, k), k) == s,
{
}

} // verus!
