//! Window layouts: where on the screen a named layout puts the window in front.

use vstd::prelude::*;
use crate::error::{ErrorModel, ModuleError};
use crate::module::{Module, ShutdownReport, StartupReport};
use crate::settings::{SettingModel, Settings};
use crate::text::str_eq;

verus! {

/// What the platform told of the screen and of the window in front.
#[derive(Debug, Clone, Copy, PartialEq, Eq)]
pub struct ScreenProbe {
    /// Whether there is a window in front.
    pub has_foreground_window: bool,
    /// The width of the screen, in pixels.
    pub width: i32,
    /// The height of the screen, in pixels.
    pub height: i32,
}

/// Where a window is to stand, in pixels from the upper left corner.
#[derive(Debug, Clone, Copy, PartialEq, Eq)]
pub struct WindowPlacement {
    pub x: i32,
    pub y: i32,
    pub width: i32,
    pub height: i32,
}

/// `value * num / den`, rounded towards zero.
pub open spec fn portion(value: int, num: int, den: int) -> int {
    if value >= 0 {
        (value * num) / den
    } else {
        -((-value * num) / den)
    }
}

/// The placement that a layout gives on a screen of the given size, where the
/// layout has a name that is known.
pub open spec fn placement_for(layout: Seq<char>, width: int, height: int) -> Option<
    (int, int, int, int),
> {
    if layout == "left"@ || layout == "50-50"@ {
        Some((0, 0, portion(width, 1, 2), height))
    } else if layout == "right"@ {
        Some((portion(width, 1, 2), 0, portion(width, 1, 2), height))
    } else if layout == "left-60"@ || layout == "60-40"@ {
        Some((0, 0, portion(width, 60, 100), height))
    } else if layout == "right-60"@ {
        Some((portion(width, 40, 100), 0, portion(width, 60, 100), height))
    } else if layout == "center"@ {
        Some((portion(width, 1, 8), portion(height, 1, 8), portion(width, 3, 4), portion(height, 3, 4)))
    } else {
        None
    }
}

/// `value * num / den`, rounded towards zero, for a fraction of at most one.
fn take_portion(value: i32, num: i64, den: i64) -> (r: i32)
    requires
        0 < num <= den <= 100,
    ensures
        r == portion(value as int, num as int, den as int),
{
    if value >= 0 {
        assert(0 <= value * num <= 2147483647 * 100) by (nonlinear_arith)
            requires
                0 <= value <= 2147483647,
                0 < num <= 100,
        ;
        let wide: i64 = (value as i64) * num;
        let part: i64 = wide / den;
        assert(0 <= part <= value) by (nonlinear_arith)
            requires
                part == (value * num) / (den as int),
                0 < num <= den,
                value >= 0,
        ;
        part as i32
    } else {
        assert(0 <= (-value) * num <= 2147483648 * 100) by (nonlinear_arith)
            requires
                0 < -value <= 2147483648,
                0 < num <= 100,
        ;
        let wide: i64 = (-(value as i64)) * num;
        let part: i64 = wide / den;
        assert(0 <= part <= -value) by (nonlinear_arith)
            requires
                part == (-value * num) / (den as int),
                0 < num <= den,
                value < 0,
        ;
        (-part) as i32
    }
}

/// The window layout module.
#[derive(Debug)]
pub struct DynamicSplit {
    enabled: bool,
    settings: Settings,
}

/// The state of the window layout module.
pub struct SplitModel {
    pub enabled: bool,
    pub settings: Map<Seq<char>, SettingModel>,
}

impl View for DynamicSplit {
    type V = SplitModel;

    closed spec fn view(&self) -> SplitModel {
        SplitModel { enabled: self.enabled, settings: self.settings@ }
    }
}

impl DynamicSplit {
    /// A module that is switched off and has no settings.
    pub fn new() -> (r: DynamicSplit)
        ensures
            r@ == (SplitModel { enabled: false, settings: Map::empty() }),
    {
        DynamicSplit { enabled: false, settings: Settings::new() }
    }

    /// Where the named layout puts the window in front. Without such a window
    /// this is an `OsError`, and with a name that no layout has an
    /// `UnknownLayout`. The placement is for the platform to carry out; how
    /// that went goes to `confirm_layout`.
    pub fn apply_layout(&self, layout: &str, screen: ScreenProbe) -> (r: Result<
        WindowPlacement,
        ModuleError,
    >)
        ensures
            match r {
                Ok(p) => screen.has_foreground_window && placement_for(
                    layout@,
                    screen.width as int,
                    screen.height as int,
                ) == Some((p.x as int, p.y as int, p.width as int, p.height as int)),
                Err(e) => if !screen.has_foreground_window {
                    e@ == ErrorModel::OsError("No foreground window"@)
                } else {
                    placement_for(layout@, screen.width as int, screen.height as int) is None && e@
                        == ErrorModel::UnknownLayout(layout@)
                },
            },
    {
        if !screen.has_foreground_window {
            return Err(ModuleError::OsError(String::from_str("No foreground window")));
        }
        let w = screen.width;
        let h = screen.height;
        if str_eq(layout, "left") || str_eq(layout, "50-50") {
            Ok(WindowPlacement { x: 0, y: 0, width: take_portion(w, 1, 2), height: h })
        } else if str_eq(layout, "right") {
            Ok(
                WindowPlacement {
                    x: take_portion(w, 1, 2),
                    y: 0,
                    width: take_portion(w, 1, 2),
                    height: h,
                },
            )
        } else if str_eq(layout, "left-60") || str_eq(layout, "60-40") {
            Ok(WindowPlacement { x: 0, y: 0, width: take_portion(w, 60, 100), height: h })
        } else if str_eq(layout, "right-60") {
            Ok(
                WindowPlacement {
                    x: take_portion(w, 40, 100),
                    y: 0,
                    width: take_portion(w, 60, 100),
                    height: h,
                },
            )
        } else if str_eq(layout, "center") {
            Ok(
                WindowPlacement {
                    x: take_portion(w, 1, 8),
                    y: take_portion(h, 1, 8),
                    width: take_portion(w, 3, 4),
                    height: take_portion(h, 3, 4),
                },
            )
        } else {
            Err(ModuleError::UnknownLayout(layout.to_owned()))
        }
    }

    /// Whether the platform moved the window as asked, as an error or none.
    pub fn confirm_layout(moved: bool) -> (r: Result<(), ModuleError>)
        ensures
            match r {
                Ok(_) => moved,
                Err(e) => !moved && e@ == ErrorModel::OsError("SetWindowPos failed"@),
            },
    {
        if moved {
            Ok(())
        } else {
            Err(ModuleError::OsError(String::from_str("SetWindowPos failed")))
        }
    }
}

impl Module for DynamicSplit {
    open spec fn module_name(&self) -> Seq<char> {
        "dynamic_split"@
    }

    open spec fn summary(&self) -> Seq<char> {
        "Split screen into custom shapes with hotkey cycling"@
    }

    open spec fn enabled(&self) -> bool {
        self@.enabled
    }

    open spec fn settings(&self) -> Map<Seq<char>, SettingModel> {
        self@.settings
    }

    fn name(&self) -> (r: &'static str) {
        "dynamic_split"
    }

    fn description(&self) -> (r: &'static str) {
        "Split screen into custom shapes with hotkey cycling"
    }

    fn is_enabled(&self) -> (r: bool) {
        self.enabled
    }

    /// Switches the module on. Nothing else changes, and nothing fails.
    fn enable(&mut self, _report: StartupReport) -> (r: Result<(), ModuleError>)
        ensures
            r is Ok,
            final(self)@ == (SplitModel { enabled: true, ..old(self)@ }),
    {
        self.enabled = true;
        Ok(())
    }

    /// Switches the module off. Nothing else changes, and nothing fails.
    fn disable(&mut self, _report: ShutdownReport) -> (r: Result<(), ModuleError>)
        ensures
            r is Ok,
            final(self)@ == (SplitModel { enabled: false, ..old(self)@ }),
    {
        self.enabled = false;
        Ok(())
    }

    fn get_settings(&self) -> (r: Settings) {
        self.settings.duplicate()
    }

    /// Merges `settings` in: the module keeps whatever it is given, key by key.
    fn update_settings(&mut self, settings: Settings) -> (r: Result<(), ModuleError>)
        ensures
            final(self)@ == (SplitModel {
                settings: old(self)@.settings.union_prefer_right(settings@),
                ..old(self)@
            }),
    {
        self.settings.merge(&settings);
        Ok(())
    }
}

} // verus!
