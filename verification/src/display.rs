//! Display bootstrap and object registry.
//!
//! [`LvglHandle`] stands for the one-per-process display state: the screen
//! resolution, the draw buffer size, the theme, and the registry that hands
//! out object handles.  Objects are never reclaimed: the object tree owns
//! every widget for the rest of the process's life, so the registry only
//! grows.  Handle `1` is the screen's root object; every widget receives a
//! fresh handle above it.

use vstd::prelude::*;
use crate::assets::LvglColor;
use crate::assets::LvglFont;
use crate::generic::LvglWidget;

verus! {

/// Handle of the screen's root object.
pub const ROOT_HANDLE: u64 = 1;

/// The theme applied to the display, when one was set.
#[derive(Clone, Copy, Debug)]
pub struct LvglTheme {
    /// Primary theme color.
    pub primary: LvglColor,
    /// Secondary theme color.
    pub secondary: LvglColor,
    /// True for the dark variant of the theme.
    pub dark: bool,
    /// Default font of the theme.
    pub font: LvglFont,
}

/// The display bootstrap state and object registry.
#[derive(Clone, Debug)]
pub struct LvglHandle {
    /// Horizontal resolution of the screen.
    pub x_res: i16,
    /// Vertical resolution of the screen.
    pub y_res: i16,
    /// Divisor of the full screen area that sizes the draw buffer.
    pub draw_ratio: u32,
    /// Number of pixels in the draw buffer.
    pub buffer_sz: u32,
    /// Background color of the display, when a theme was set.
    pub bg_color: Option<LvglColor>,
    /// Background opacity of the display.
    pub bg_opa: u8,
    /// The theme applied to the display, when one was set.
    pub theme: Option<LvglTheme>,
    /// The next object handle the registry will hand out.
    pub next_obj: u64,
}

impl LvglHandle {
    /// The registry never hands out the zero handle nor the root's.
    pub open spec fn wf(&self) -> bool {
        self.next_obj >= 2
    }

    /// Initialize the display once for the process: remember the screen
    /// resolution, size the draw buffer as the given fraction of the full
    /// screen area, and start the object registry above the root handle.
    pub fn new(x_res: i16, y_res: i16, draw_ratio: u32) -> (r: Self)
        requires
            x_res >= 0,
            y_res >= 0,
            draw_ratio >= 1,
        ensures
            r == (LvglHandle {
                x_res,
                y_res,
                draw_ratio,
                buffer_sz: ((x_res as int) * (y_res as int) / (draw_ratio as int)) as u32,
                bg_color: None,
                bg_opa: 0,
                theme: None,
                next_obj: 2,
            }),
            r.wf(),
    {
        proof {
            assert((x_res as int) * (y_res as int) < 0x40000000) by (nonlinear_arith)
                requires
                    0 <= x_res < 0x8000,
                    0 <= y_res < 0x8000,
            ;
        }
        let buffer_sz: u32 = (x_res as u32) * (y_res as u32) / draw_ratio;
        LvglHandle {
            x_res,
            y_res,
            draw_ratio,
            buffer_sz,
            bg_color: None,
            bg_opa: 0,
            theme: None,
            next_obj: 2,
        }
    }

    /// Hand out a fresh object handle: never zero, never the root's, and
    /// distinct from every handle handed out before.
    pub fn alloc_obj(&mut self) -> (h: u64)
        requires
            old(self).wf(),
            old(self).next_obj < u64::MAX,
        ensures
            *final(self) == (LvglHandle { next_obj: (old(self).next_obj + 1) as u64, ..*old(self) }),
            final(self).wf(),
            h == old(self).next_obj,
            h != 0,
            h != ROOT_HANDLE,
    {
        let h: u64 = self.next_obj;
        self.next_obj = self.next_obj + 1;
        h
    }

    /// Apply a theme to the display, with the fixed grey background the
    /// bootstrap chooses.
    pub fn set_theme(&mut self, primary: LvglColor, secondary: LvglColor, dark: bool, font:
        &LvglFont)
        ensures
            *final(self) == (LvglHandle {
                bg_color: Some(LvglColor { red: 100, green: 100, blue: 100 }),
                bg_opa: 128,
                theme: Some(LvglTheme { primary, secondary, dark, font: *font }),
                ..*old(self)
            }),
    {
        self.bg_color = Some(LvglColor { red: 100, green: 100, blue: 100 });
        self.bg_opa = 128;
        self.theme = Some(LvglTheme { primary, secondary, dark, font: *font });
    }

    /// The pseudo-widget standing for the screen's root object.
    pub fn get_root_widget(&self) -> (r: LvglWidget)
        ensures
            r == LvglWidget::Display,
            r.spec_handle() == ROOT_HANDLE,
    {
        LvglWidget::Display
    }
}

} // verus!
