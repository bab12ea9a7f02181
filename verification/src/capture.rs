//! Construction-time resolution and session launch.
//!
//! [`NativeWindowsCapture::new`] turns the optional, partly mutually
//! exclusive construction parameters into exactly one capture target and one
//! settings set.  [`NativeWindowsCapture::start`] and
//! [`NativeWindowsCapture::start_free_threaded`] validate the target against
//! what the engine enumerates at that moment and produce the exact start
//! command for the engine together with a fresh session.  The engine loop
//! itself runs outside the library: in blocking mode the embedder drives the
//! returned session on the calling thread and reads its terminal result; in
//! detached mode it drives the session owned by the returned control handle
//! on a spawned thread, and the caller joins through the handle.

use vstd::prelude::*;

use crate::control::NativeCaptureControl;
use crate::errors::ConfigError;
use crate::errors::StartError;
use crate::matching::contains_chars;
use crate::matching::find_first_containing;
use crate::matching::first_title_match;
use crate::session::CaptureSession;
use crate::settings::apply_target_policy;
use crate::settings::effective_settings;
use crate::settings::settings_of;
use crate::settings::CaptureSettings;
use crate::settings::CaptureTarget;
use crate::settings::CursorCaptureSettings;
use crate::settings::DirtyRegionSettings;
use crate::settings::DrawBorderSettings;
use crate::settings::MinimumUpdateIntervalSettings;
use crate::settings::SecondaryWindowSettings;

verus! {

/// What the engine enumerates at the moment a session starts: how many
/// monitors exist, and the titles of all top-level windows in enumeration
/// order.
#[derive(Clone, Debug, PartialEq, Eq)]
pub struct EngineSnapshot {
    pub monitor_count: usize,
    pub window_titles: Vec<String>,
}

/// A target checked against the engine's enumeration: a valid 1-based
/// monitor index, the position of the selected window in enumeration order,
/// or a raw window handle taken as given.
#[derive(Clone, Copy, Debug, PartialEq, Eq, Structural)]
pub enum ResolvedTarget {
    Monitor(usize),
    Window(usize),
    WindowHandle(isize),
}

/// Everything the engine needs to start one session: the resolved target
/// and the settings set it honours for that target.
#[derive(Clone, Copy, Debug, PartialEq, Eq, Structural)]
pub struct StartCommand {
    pub target: ResolvedTarget,
    pub settings: CaptureSettings,
}

/// Two or more of the three mutually exclusive target parameters are set.
pub open spec fn ambiguous_target(
    window_hwnd: Option<isize>,
    window_name: Option<String>,
    monitor_index: Option<usize>,
) -> bool {
    ||| window_hwnd is Some && window_name is Some
    ||| window_hwnd is Some && monitor_index is Some
    ||| window_name is Some && monitor_index is Some
}

/// The target an unambiguous parameter triple resolves to: the one set
/// parameter, or monitor 1 when none is set.
pub open spec fn target_of(
    window_hwnd: Option<isize>,
    window_name: Option<String>,
    monitor_index: Option<usize>,
) -> CaptureTarget {
    if window_hwnd is Some {
        CaptureTarget::WindowByHandle(window_hwnd->0)
    } else if window_name is Some {
        CaptureTarget::WindowByName(window_name->0)
    } else if monitor_index is Some {
        CaptureTarget::Monitor(monitor_index->0)
    } else {
        CaptureTarget::Monitor(1)
    }
}

/// The target exists in the engine's enumeration: the monitor index is in
/// the 1-based enumerated range, or some window title contains the
/// requested substring.  A raw handle is taken as given and never checked
/// here.
pub open spec fn target_resolvable(target: CaptureTarget, snapshot: EngineSnapshot) -> bool {
    match target {
        CaptureTarget::Monitor(index) => 1 <= index <= snapshot.monitor_count,
        CaptureTarget::WindowByName(name) => exists|k: int|
            0 <= k < snapshot.window_titles@.len() && contains_chars(
                #[trigger] snapshot.window_titles@[k]@,
                name@,
            ),
        CaptureTarget::WindowByHandle(_) => true,
    }
}

/// The resolved target that a target maps to under a snapshot: the same
/// monitor index, the first matching window in enumeration order, or the
/// handle unchanged.
pub open spec fn target_resolves_to(
    target: CaptureTarget,
    snapshot: EngineSnapshot,
    resolved: ResolvedTarget,
) -> bool {
    match target {
        CaptureTarget::Monitor(index) => resolved == ResolvedTarget::Monitor(index),
        CaptureTarget::WindowByName(name) => resolved matches ResolvedTarget::Window(at)
            && first_title_match(snapshot.window_titles@, name@, at as int),
        CaptureTarget::WindowByHandle(handle) => resolved == ResolvedTarget::WindowHandle(handle),
    }
}

/// The resolved, immutable configuration of sessions to come: one target
/// and one requested settings set.
#[derive(Clone, Debug, PartialEq, Eq)]
pub struct NativeWindowsCapture {
    pub target: CaptureTarget,
    pub settings: CaptureSettings,
}

impl NativeWindowsCapture {
    /// Resolves the optional construction parameters.  At most one of
    /// `window_hwnd`, `window_name` and `monitor_index` may be set — any
    /// two or all three together fail with [`ConfigError::AmbiguousTarget`];
    /// none at all defaults to monitor 1.  Each optional boolean maps to
    /// its explicit three-way switch, an absent one to `Default`; an
    /// absent interval maps to `Default`, a present one to `Custom`.
    ///
    /// The two foreign callbacks of a full construction are opaque host
    /// values: the embedder keeps them and invokes them as the session's
    /// step decisions direct.
    pub fn new(
        cursor_capture: Option<bool>,
        draw_border: Option<bool>,
        secondary_window: Option<bool>,
        minimum_update_interval: Option<u64>,
        dirty_region: Option<bool>,
        monitor_index: Option<usize>,
        window_name: Option<String>,
        window_hwnd: Option<isize>,
    ) -> (resolved: Result<Self, ConfigError>)
        ensures
            resolved is Err <==> ambiguous_target(window_hwnd, window_name, monitor_index),
            resolved matches Err(e) ==> e == ConfigError::AmbiguousTarget,
            resolved matches Ok(capture) ==> capture.target == target_of(
                window_hwnd,
                window_name,
                monitor_index,
            ) && capture.settings == settings_of(
                cursor_capture,
                draw_border,
                secondary_window,
                minimum_update_interval,
                dirty_region,
            ),
            window_hwnd is None && window_name is None && monitor_index is None ==> (resolved
                matches Ok(capture) && capture.target == CaptureTarget::Monitor(1)),
    {
        let hwnd_and_name = window_hwnd.is_some() && window_name.is_some();
        let hwnd_and_index = window_hwnd.is_some() && monitor_index.is_some();
        let name_and_index = window_name.is_some() && monitor_index.is_some();
        if hwnd_and_name || hwnd_and_index || name_and_index {
            return Err(ConfigError::AmbiguousTarget);
        }
        let target = if let Some(handle) = window_hwnd {
            CaptureTarget::WindowByHandle(handle)
        } else if let Some(name) = window_name {
            CaptureTarget::WindowByName(name)
        } else if let Some(index) = monitor_index {
            CaptureTarget::Monitor(index)
        } else {
            CaptureTarget::Monitor(1)
        };
        let cursor_capture = match cursor_capture {
            Some(true) => CursorCaptureSettings::WithCursor,
            Some(false) => CursorCaptureSettings::WithoutCursor,
            None => CursorCaptureSettings::Default,
        };
        let draw_border = match draw_border {
            Some(true) => DrawBorderSettings::WithBorder,
            Some(false) => DrawBorderSettings::WithoutBorder,
            None => DrawBorderSettings::Default,
        };
        let secondary_window = match secondary_window {
            Some(true) => SecondaryWindowSettings::Include,
            Some(false) => SecondaryWindowSettings::Exclude,
            None => SecondaryWindowSettings::Default,
        };
        let minimum_update_interval = match minimum_update_interval {
            Some(millis) => MinimumUpdateIntervalSettings::Custom(millis),
            None => MinimumUpdateIntervalSettings::Default,
        };
        let dirty_region_settings = match dirty_region {
            Some(true) => DirtyRegionSettings::ReportAndRender,
            Some(false) => DirtyRegionSettings::ReportOnly,
            None => DirtyRegionSettings::Default,
        };
        Ok(
            NativeWindowsCapture {
                target,
                settings: CaptureSettings {
                    cursor_capture,
                    draw_border,
                    secondary_window,
                    minimum_update_interval,
                    dirty_region_settings,
                },
            },
        )
    }

    /// Checks the configured target against the engine's enumeration and
    /// picks the concrete target: the monitor at the 1-based index, the
    /// first window whose title contains the substring, or the raw handle
    /// unchanged.  Fails with [`StartError::TargetNotFound`] exactly when
    /// the index is out of range or no title matches.
    pub fn resolve_target(&self, snapshot: &EngineSnapshot) -> (resolved: Result<
        ResolvedTarget,
        StartError,
    >)
        ensures
            resolved is Ok <==> target_resolvable(self.target, *snapshot),
            resolved matches Ok(target) ==> target_resolves_to(self.target, *snapshot, target),
            resolved matches Err(e) ==> e == StartError::TargetNotFound,
    {
        match &self.target {
            CaptureTarget::Monitor(index) => {
                if 1 <= *index && *index <= snapshot.monitor_count {
                    Ok(ResolvedTarget::Monitor(*index))
                } else {
                    Err(StartError::TargetNotFound)
                }
            },
            CaptureTarget::WindowByName(name) => {
                match find_first_containing(&snapshot.window_titles, name.as_str()) {
                    Some(at) => Ok(ResolvedTarget::Window(at)),
                    None => Err(StartError::TargetNotFound),
                }
            },
            CaptureTarget::WindowByHandle(handle) => Ok(ResolvedTarget::WindowHandle(*handle)),
        }
    }

    /// Launches a blocking session.  On success the command tells the
    /// engine what to capture — with the settings the engine honours for
    /// this target — and the fresh session is driven by the embedder on
    /// the calling thread until it ends; its terminal result is what the
    /// blocking call returns.  Fails with [`StartError::TargetNotFound`]
    /// exactly when the target is absent from the enumeration.
    pub fn start(&self, snapshot: &EngineSnapshot) -> (launch: Result<
        (StartCommand, CaptureSession),
        StartError,
    >)
        ensures
            launch is Ok <==> target_resolvable(self.target, *snapshot),
            launch matches Ok(p) ==> target_resolves_to(self.target, *snapshot, p.0.target)
                && p.0.settings == effective_settings(self.target, self.settings)
                && p.1 == CaptureSession::initial(),
            launch matches Err(e) ==> e == StartError::TargetNotFound,
    {
        let resolved = self.resolve_target(snapshot)?;
        let settings = apply_target_policy(&self.target, &self.settings);
        Ok((StartCommand { target: resolved, settings }, CaptureSession::new()))
    }

    /// Launches a detached session.  The same resolution as [`Self::start`],
    /// but the fresh session is owned by the returned control handle: the
    /// embedder drives it on a spawned thread through the handle's
    /// engine-side methods, while the caller may query, stop and join
    /// through `is_finished`, `stop` and `wait`.  A failure before the
    /// handle exists is synchronous, as here; one after the spawn is
    /// reported to the session and surfaces at the first join.
    pub fn start_free_threaded(&self, snapshot: &EngineSnapshot) -> (launch: Result<
        (StartCommand, NativeCaptureControl),
        StartError,
    >)
        ensures
            launch is Ok <==> target_resolvable(self.target, *snapshot),
            launch matches Ok(p) ==> target_resolves_to(self.target, *snapshot, p.0.target)
                && p.0.settings == effective_settings(self.target, self.settings)
                && p.1.capture_control == Some(CaptureSession::initial()),
            launch matches Err(e) ==> e == StartError::TargetNotFound,
    {
        let resolved = self.resolve_target(snapshot)?;
        let settings = apply_target_policy(&self.target, &self.settings);
        Ok(
            (
                StartCommand { target: resolved, settings },
                NativeCaptureControl::new(CaptureSession::new()),
            ),
        )
    }
}

} // verus!
