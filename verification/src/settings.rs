//! Capture targets and engine settings, and their resolution rules.
//!
//! A session captures exactly one target: a monitor picked by 1-based index,
//! a window picked by a name substring, or a window picked by raw handle.
//! The five behaviour settings are independent three-way switches; the engine
//! honours the full set only for monitor targets, so for window targets the
//! last three are forced back to their defaults before the engine is started.

use vstd::prelude::*;

verus! {

/// Whether the cursor is drawn into captured frames.
#[derive(Clone, Copy, Debug, PartialEq, Eq, Structural)]
pub enum CursorCaptureSettings {
    Default,
    WithCursor,
    WithoutCursor,
}

/// Whether the capture border is drawn around the target.
#[derive(Clone, Copy, Debug, PartialEq, Eq, Structural)]
pub enum DrawBorderSettings {
    Default,
    WithBorder,
    WithoutBorder,
}

/// Whether secondary windows of the target are included.
#[derive(Clone, Copy, Debug, PartialEq, Eq, Structural)]
pub enum SecondaryWindowSettings {
    Default,
    Include,
    Exclude,
}

/// Minimum interval between frame updates; the custom value is in
/// milliseconds.
#[derive(Clone, Copy, Debug, PartialEq, Eq, Structural)]
pub enum MinimumUpdateIntervalSettings {
    Default,
    Custom(u64),
}

/// How dirty regions are reported by the engine.
#[derive(Clone, Copy, Debug, PartialEq, Eq, Structural)]
pub enum DirtyRegionSettings {
    Default,
    ReportOnly,
    ReportAndRender,
}

/// The resolved, immutable settings set of one session.
#[derive(Clone, Copy, Debug, PartialEq, Eq, Structural)]
pub struct CaptureSettings {
    pub cursor_capture: CursorCaptureSettings,
    pub draw_border: DrawBorderSettings,
    pub secondary_window: SecondaryWindowSettings,
    pub minimum_update_interval: MinimumUpdateIntervalSettings,
    pub dirty_region_settings: DirtyRegionSettings,
}

/// The single resolved source of a session.  `Monitor` holds a 1-based
/// monitor index; `WindowByName` holds a substring to match against window
/// titles; `WindowByHandle` holds a raw window handle taken as given.
#[derive(Clone, Debug, PartialEq, Eq)]
pub enum CaptureTarget {
    Monitor(usize),
    WindowByName(String),
    WindowByHandle(isize),
}

/// The cursor switch an optional boolean resolves to.
pub open spec fn cursor_setting_of(choice: Option<bool>) -> CursorCaptureSettings {
    match choice {
        Some(true) => CursorCaptureSettings::WithCursor,
        Some(false) => CursorCaptureSettings::WithoutCursor,
        None => CursorCaptureSettings::Default,
    }
}

/// The border switch an optional boolean resolves to.
pub open spec fn border_setting_of(choice: Option<bool>) -> DrawBorderSettings {
    match choice {
        Some(true) => DrawBorderSettings::WithBorder,
        Some(false) => DrawBorderSettings::WithoutBorder,
        None => DrawBorderSettings::Default,
    }
}

/// The secondary-window switch an optional boolean resolves to.
pub open spec fn secondary_setting_of(choice: Option<bool>) -> SecondaryWindowSettings {
    match choice {
        Some(true) => SecondaryWindowSettings::Include,
        Some(false) => SecondaryWindowSettings::Exclude,
        None => SecondaryWindowSettings::Default,
    }
}

/// The update-interval setting an optional millisecond count resolves to.
pub open spec fn interval_setting_of(millis: Option<u64>) -> MinimumUpdateIntervalSettings {
    match millis {
        Some(ms) => MinimumUpdateIntervalSettings::Custom(ms),
        None => MinimumUpdateIntervalSettings::Default,
    }
}

/// The dirty-region setting an optional boolean resolves to.
pub open spec fn dirty_region_setting_of(choice: Option<bool>) -> DirtyRegionSettings {
    match choice {
        Some(true) => DirtyRegionSettings::ReportAndRender,
        Some(false) => DirtyRegionSettings::ReportOnly,
        None => DirtyRegionSettings::Default,
    }
}

/// The settings set that a group of optional construction parameters
/// resolves to, field by field.
pub open spec fn settings_of(
    cursor_capture: Option<bool>,
    draw_border: Option<bool>,
    secondary_window: Option<bool>,
    minimum_update_interval: Option<u64>,
    dirty_region: Option<bool>,
) -> CaptureSettings {
    CaptureSettings {
        cursor_capture: cursor_setting_of(cursor_capture),
        draw_border: border_setting_of(draw_border),
        secondary_window: secondary_setting_of(secondary_window),
        minimum_update_interval: interval_setting_of(minimum_update_interval),
        dirty_region_settings: dirty_region_setting_of(dirty_region),
    }
}

/// Whether a target is one of the two window forms, for which the engine
/// honours only the cursor and border settings.
pub open spec fn is_window_target(target: CaptureTarget) -> bool {
    target is WindowByName || target is WindowByHandle
}

/// The settings set actually handed to the engine for a target: unchanged
/// for a monitor target; for a window target the secondary-window,
/// update-interval and dirty-region fields are forced to `Default`.
pub open spec fn effective_settings(target: CaptureTarget, settings: CaptureSettings) -> CaptureSettings {
    if is_window_target(target) {
        CaptureSettings {
            cursor_capture: settings.cursor_capture,
            draw_border: settings.draw_border,
            secondary_window: SecondaryWindowSettings::Default,
            minimum_update_interval: MinimumUpdateIntervalSettings::Default,
            dirty_region_settings: DirtyRegionSettings::Default,
        }
    } else {
        settings
    }
}

/// Law: for a monitor target all five settings fields pass through to the
/// engine unchanged; for a window target the cursor and border fields pass
/// through and the other three are always `Default`, whatever was requested.
pub proof fn lemma_settings_pass_through(target: CaptureTarget, settings: CaptureSettings)
    ensures
        target is Monitor ==> effective_settings(target, settings) == settings,
        is_window_target(target) ==> ({
            let effective = effective_settings(target, settings);
            &&& effective.cursor_capture == settings.cursor_capture
            &&& effective.draw_border == settings.draw_border
            &&& effective.secondary_window is Default
            &&& effective.minimum_update_interval is Default
            &&& effective.dirty_region_settings is Default
        }),
{
}

/// Computes [`effective_settings`] for the engine hand-off.
pub fn apply_target_policy(target: &CaptureTarget, settings: &CaptureSettings) -> (effective: CaptureSettings)
    ensures
        effective == effective_settings(*target, *settings),
{
    match target {
        CaptureTarget::Monitor(_) => *settings,
        CaptureTarget::WindowByName(_) | CaptureTarget::WindowByHandle(_) => CaptureSettings {
            cursor_capture: settings.cursor_capture,
            draw_border: settings.draw_border,
            secondary_window: SecondaryWindowSettings::Default,
            minimum_update_interval: MinimumUpdateIntervalSettings::Default,
            dirty_region_settings: DirtyRegionSettings::Default,
        },
    }
}

} // verus!
