//! The extra widget kinds: the meter and the QR code.

use vstd::prelude::*;
use vstd::string::StringSliceAdditionalSpecFns;
use crate::assets::LvglColor;
use crate::display::LvglHandle;
use crate::generic::LvglWidget;
use crate::widget::LvglCommon;
use crate::widget::LvglMethod;
use crate::widget::WidgetBase;
use crate::widget::base_new;
use crate::widget::spec_base_new;

verus! {

/// The tick scale applied to a meter.  Major ticks are one and a half times
/// as wide and as long as the minor ones, as the backend draws them.
#[derive(Clone, Copy, Debug)]
pub struct MeterTicks {
    /// Width of a minor tick line.
    pub line_width: u16,
    /// Gap between a major tick and its label.
    pub label_gap: i16,
    /// Number of ticks on the scale.
    pub tick_count: u16,
    /// Length of a minor tick.
    pub tick_length: u16,
    /// Every so many ticks, one is major.
    pub nth_major: u16,
    /// Color of the minor ticks.
    pub minor_color: LvglColor,
    /// Color of the major ticks.
    pub major_color: LvglColor,
    /// Width of a major tick line.
    pub major_width: u16,
    /// Length of a major tick.
    pub major_length: u16,
}

/// A colored zone drawn on a meter's scale.
#[derive(Clone, Copy, Debug)]
pub struct MeterZone {
    /// First value of the zone.
    pub start: i32,
    /// Last value of the zone.
    pub end: i32,
    /// Width of the zone's arc.
    pub width: u16,
    /// Color of the zone.
    pub color: LvglColor,
}

/// One and a half times `w`, rounded down and saturated to the 16-bit
/// range: the proportion the backend gives a major tick over a minor one.
pub open spec fn spec_three_halves(w: u16) -> u16 {
    if 3 * w / 2 > 0xffff {
        0xffff
    } else {
        (3 * w / 2) as u16
    }
}

/// Compute one and a half times `w`, rounded down, saturated to 16 bits.
fn three_halves(w: u16) -> (r: u16)
    ensures
        r == spec_three_halves(w),
{
    let wide: u32 = 3 * (w as u32) / 2;
    if wide > 0xffff {
        0xffff
    } else {
        wide as u16
    }
}

/// A meter with a needle.
#[derive(Clone, Debug)]
pub struct LvglMeter {
    /// Shared bookkeeping.
    pub base: WidgetBase,
    /// Width of the needle line.
    pub needle_width: u16,
    /// Length of the needle relative to the scale radius.
    pub needle_ratio: i16,
    /// Color of the needle.
    pub needle_color: LvglColor,
    /// Current value the needle points at.
    pub value: i32,
    /// The tick scale, when one was applied.
    pub ticks: Option<MeterTicks>,
    /// The colored zones drawn on the scale, in the order they were added.
    pub zones: Vec<MeterZone>,
}

impl LvglCommon for LvglMeter {
    open spec fn base(&self) -> WidgetBase {
        self.base
    }

    open spec fn with_base(self, base: WidgetBase) -> Self {
        LvglMeter { base, ..self }
    }

    open spec fn as_widget(self) -> LvglWidget {
        LvglWidget::Meter(self)
    }

    fn base_ref(&self) -> (r: &WidgetBase) {
        &self.base
    }

    fn base_mut(&mut self) -> (r: &mut WidgetBase) {
        &mut self.base
    }

    fn finalize(self) -> (r: LvglWidget) {
        LvglWidget::Meter(self)
    }
}

impl LvglMethod for LvglMeter {

}

impl LvglMeter {
    /// Create a meter under `parent`, with a scale and a needle of the
    /// given width, length ratio and color.  The fresh handle is never
    /// zero.
    pub fn new(
        ctx: &mut LvglHandle,
        parent: &LvglWidget,
        uid: &'static str,
        needle_width: u16,
        needle_ratio: i16,
        needle_color: LvglColor,
        x_ofs: i16,
        y_ofs: i16,
    ) -> (r: Self)
        requires
            old(ctx).wf(),
            old(ctx).next_obj < u64::MAX,
        ensures
            *final(ctx) == (LvglHandle { next_obj: (old(ctx).next_obj + 1) as u64, ..*old(ctx) }),
            r.base == spec_base_new(old(ctx).next_obj, parent.spec_handle(), uid, x_ofs, y_ofs),
            r.base.handle != 0,
            r.needle_width == needle_width,
            r.needle_ratio == needle_ratio,
            r.needle_color == needle_color,
            r.value == 0,
            r.ticks is None,
            r.zones@ == Seq::<MeterZone>::empty(),
    {
        let handle: u64 = ctx.alloc_obj();
        let base = base_new(handle, parent.get_handle(), uid, x_ofs, y_ofs);
        LvglMeter {
            base,
            needle_width,
            needle_ratio,
            needle_color,
            value: 0,
            ticks: None,
            zones: Vec::new(),
        }
    }

    /// Apply a tick scale to the meter.  The backend draws every
    /// `nth_major`-th tick major, one and a half times as wide and as long
    /// as the minor ones.
    pub fn set_tic(
        &mut self,
        line_width: u16,
        label_gap: i16,
        tick_count: u16,
        tick_length: u16,
        nth_major: u16,
        minor_color: LvglColor,
        major_color: LvglColor,
    )
        ensures
            *final(self) == (LvglMeter {
                ticks: Some(
                    MeterTicks {
                        line_width,
                        label_gap,
                        tick_count,
                        tick_length,
                        nth_major,
                        minor_color,
                        major_color,
                        major_width: spec_three_halves(line_width),
                        major_length: spec_three_halves(tick_length),
                    },
                ),
                ..*old(self)
            }),
    {
        let major_width: u16 = three_halves(line_width);
        let major_length: u16 = three_halves(tick_length);
        self.ticks = Some(
            MeterTicks {
                line_width,
                label_gap,
                tick_count,
                tick_length,
                nth_major,
                minor_color,
                major_color,
                major_width,
                major_length,
            },
        );
    }

    /// Add a colored zone covering the values from `start` to `end`.
    pub fn set_zone(&mut self, start: i32, end: i32, width: u16, color: LvglColor)
        ensures
            *final(self) == (LvglMeter { zones: final(self).zones, ..*old(self) }),
            final(self).zones@ == old(self).zones@.push(MeterZone { start, end, width, color }),
    {
        self.zones.push(MeterZone { start, end, width, color });
    }

    /// Point the needle at a value.
    pub fn set_value(&mut self, value: i32)
        ensures
            *final(self) == (LvglMeter { value, ..*old(self) }),
    {
        self.value = value;
    }
}

/// A QR code.
#[derive(Clone, Debug)]
pub struct LvglQrcode {
    /// Shared bookkeeping.
    pub base: WidgetBase,
    /// The bytes the code encodes.
    pub data: Vec<u8>,
    /// Side length of the code, in pixels.
    pub size: i16,
    /// Color of the dark modules.
    pub dark_color: LvglColor,
    /// Color of the light modules.
    pub light_color: LvglColor,
}

impl LvglCommon for LvglQrcode {
    open spec fn base(&self) -> WidgetBase {
        self.base
    }

    open spec fn with_base(self, base: WidgetBase) -> Self {
        LvglQrcode { base, ..self }
    }

    open spec fn as_widget(self) -> LvglWidget {
        LvglWidget::Qrcode(self)
    }

    fn base_ref(&self) -> (r: &WidgetBase) {
        &self.base
    }

    fn base_mut(&mut self) -> (r: &mut WidgetBase) {
        &mut self.base
    }

    fn finalize(self) -> (r: LvglWidget) {
        LvglWidget::Qrcode(self)
    }
}

impl LvglMethod for LvglQrcode {

}

impl LvglQrcode {
    /// Create a QR code under `parent`, empty, with the given colors and
    /// side length.  The fresh handle is never zero.
    pub fn new(
        ctx: &mut LvglHandle,
        parent: &LvglWidget,
        uid: &'static str,
        dark_color: LvglColor,
        light_color: LvglColor,
        size: i16,
        x_ofs: i16,
        y_ofs: i16,
    ) -> (r: Self)
        requires
            old(ctx).wf(),
            old(ctx).next_obj < u64::MAX,
        ensures
            *final(ctx) == (LvglHandle { next_obj: (old(ctx).next_obj + 1) as u64, ..*old(ctx) }),
            r.base == spec_base_new(old(ctx).next_obj, parent.spec_handle(), uid, x_ofs, y_ofs),
            r.base.handle != 0,
            r.data@ == Seq::<u8>::empty(),
            r.size == size,
            r.dark_color == dark_color,
            r.light_color == light_color,
    {
        let handle: u64 = ctx.alloc_obj();
        let base = base_new(handle, parent.get_handle(), uid, x_ofs, y_ofs);
        LvglQrcode { base, data: Vec::new(), size, dark_color, light_color }
    }

    /// Encode new data into the code.  The backend takes the bytes as they
    /// are, with no text marshaling.
    pub fn set_value(&mut self, data: &str)
        ensures
            *final(self) == (LvglQrcode { data: final(self).data, ..*old(self) }),
            final(self).data@ == data.spec_bytes(),
    {
        self.data = vstd::slice::slice_to_vec(data.as_bytes());
    }
}

} // verus!
