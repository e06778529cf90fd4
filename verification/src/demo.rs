//! The demo panel: one function per widget kind, each building the same
//! little scene the library's interactive demo shows.
//!
//! Every function takes the display's registry and a parent widget, builds
//! its widgets, and returns them in creation order, ready to join the object
//! tree.  Each contract pins the whole scene: which widgets exist, under
//! which parent, where they stand, and what was set on them.  Where the
//! scene registers an event handler, the caller passes the handler's token;
//! the driver around the library maps tokens to handlers.

use vstd::prelude::*;
use vstd::string::StringSliceAdditionalSpecFns;
use crate::assets::LvglColor;
use crate::assets::LvglFont;
use crate::assets::LvglMkFont;
use crate::core_widgets::LvglArc;
use crate::core_widgets::LvglArea;
use crate::core_widgets::LvglBar;
use crate::core_widgets::LvglButton;
use crate::core_widgets::LvglImage;
use crate::core_widgets::LvglLabel;
use crate::core_widgets::LvglLed;
use crate::core_widgets::LvglLine;
use crate::core_widgets::LvglPixButton;
use crate::core_widgets::LvglPixmap;
use crate::core_widgets::LvglSwitch;
use crate::core_widgets::LvglTextArea;
use crate::core_widgets::PixmapSource;
use crate::core_widgets::spec_image_src;
use crate::display::LvglHandle;
use crate::events::LV_STATE_CHECKED;
use crate::events::LV_STATE_DISABLED;
use crate::events::LvglState;
use crate::events::spec_state_set;
use crate::extra_widgets::LvglMeter;
use crate::extra_widgets::LvglQrcode;
use crate::extra_widgets::MeterZone;
use crate::extra_widgets::spec_three_halves;
use crate::generic::LvglPoint;
use crate::generic::LvglWidget;
use crate::text::spec_label_placeholder;
use crate::text::spec_native_text;
use crate::text::spec_text_placeholder;
use crate::widget::LvglCommon;
use crate::widget::LvglMethod;

verus! {

/// Initialize the display at the demo's fixed resolution, drawing into a
/// full-size buffer.
pub fn display_init() -> (r: LvglHandle)
    ensures
        r == (LvglHandle {
            x_res: 1024,
            y_res: 600,
            draw_ratio: 1,
            buffer_sz: 614400,
            bg_color: None,
            bg_opa: 0,
            theme: None,
            next_obj: 2,
        }),
        r.wf(),
{
    LvglHandle::new(1024, 600, 1)
}

/// Show the current time, handed in already formatted, as a label.
pub fn draw_date(ctx: &mut LvglHandle, root: &LvglWidget, x_ofs: i16, y_ofs: i16, date: &str) -> (r:
    Vec<LvglWidget>)
    requires
        old(ctx).wf(),
        old(ctx).next_obj < u64::MAX,
    ensures
        *final(ctx) == (LvglHandle { next_obj: (old(ctx).next_obj + 1) as u64, ..*old(ctx) }),
        r@.len() == 1,
        r@[0] matches LvglWidget::Label(label) && label.base.uid@ == "Local-Time"@
            && label.base.handle != 0 && label.base.parent == root.spec_handle()
            && label.base.x_ofs == x_ofs && label.base.y_ofs == y_ofs
            && label.base.style.text_font == Some(LvglFont { size: 14 }) && label.text@
            == spec_native_text(date.spec_bytes(), spec_label_placeholder()),
{
    let mut label = LvglLabel::new(ctx, root, "Local-Time", &LvglMkFont::std_14(), x_ofs, y_ofs);
    label.set_value(date);
    let mut out: Vec<LvglWidget> = Vec::new();
    out.push(label.finalize());
    out
}

/// Show a framed, captioned demo label.
pub fn draw_label(ctx: &mut LvglHandle, root: &LvglWidget, x_ofs: i16, y_ofs: i16) -> (r: Vec<
    LvglWidget,
>)
    requires
        old(ctx).wf(),
        old(ctx).next_obj < u64::MAX,
    ensures
        *final(ctx) == (LvglHandle { next_obj: (old(ctx).next_obj + 1) as u64, ..*old(ctx) }),
        r@.len() == 1,
        r@[0] matches LvglWidget::Label(label) && label.base.uid@ == "Label-1"@
            && label.base.handle != 0 && label.base.parent == root.spec_handle()
            && label.base.x_ofs == x_ofs && label.base.y_ofs == y_ofs && label.text@
            == spec_native_text("Demo Label widget".spec_bytes(), spec_label_placeholder())
            && label.base.width == Some(300i16) && label.base.height == Some(100i16)
            && label.base.style.text_font == Some(LvglFont { size: 22 })
            && label.base.style.text_color == Some(LvglColor { red: 0, green: 0, blue: 0 })
            && label.base.style.bg_color == Some(
            LvglColor { red: 0xff, green: 0xff, blue: 0xff },
        ) && label.base.style.border_width == 3 && label.base.style.border_color == Some(
            LvglColor { red: 0, green: 0xff, blue: 0 },
        ) && (label.base.title matches Some(caption) && caption.text@ == spec_native_text(
            "Label widget".spec_bytes(),
            spec_label_placeholder(),
        ) && caption.x_ofs == 100 && caption.y_ofs == 75 && caption.font == (LvglFont {
            size: 10,
        })),
{
    let mut label = LvglLabel::new(ctx, root, "Label-1", &LvglMkFont::std_22(), x_ofs, y_ofs);
    label.set_value("Demo Label widget");
    label.set_title("Label widget", 100, 75, &LvglMkFont::std_10());
    label.set_size(300, 100);
    label.set_color(LvglColor::rvb(0, 0, 0));
    label.set_background(LvglColor::rvb(0xff, 0xff, 0xff));
    label.set_border(3, LvglColor::rvb(0, 0xff, 0));
    let mut out: Vec<LvglWidget> = Vec::new();
    out.push(label.finalize());
    out
}

/// Show a small icon area: wifi and SD-card icons inside a captioned area,
/// and a battery icon beside it, directly under the root.
pub fn draw_icon(ctx: &mut LvglHandle, root: &LvglWidget, x_ofs: i16, y_ofs: i16) -> (r: Vec<
    LvglWidget,
>)
    requires
        old(ctx).wf(),
        old(ctx).next_obj <= u64::MAX - 4,
    ensures
        *final(ctx) == (LvglHandle { next_obj: (old(ctx).next_obj + 4) as u64, ..*old(ctx) }),
        r@.len() == 4,
        r@[0] matches LvglWidget::Area(area) && area.base.uid@ == "Icon-Area"@ && area.base.handle
            != 0 && area.base.parent == root.spec_handle() && area.base.x_ofs == x_ofs
            && area.base.y_ofs == y_ofs && area.base.width == Some(80i16) && area.base.height
            == Some(40i16) && area.base.style.pad_top == 5 && area.base.style.pad_bottom == 2
            && area.base.style.pad_right == 5 && area.base.style.pad_left == 5 && (
        area.base.title matches Some(caption) && caption.text@ == spec_native_text(
            "icon area".spec_bytes(),
            spec_label_placeholder(),
        ) && caption.x_ofs == 3 && caption.y_ofs == 5 && caption.font == (LvglFont { size: 10 })),
        (r@[0] matches LvglWidget::Area(area) && r@[1] matches LvglWidget::Pixmap(wifi)
            && wifi.base.uid@ == "Icon-wifi"@ && wifi.base.parent == area.base.handle
            && wifi.base.x_ofs == 10 && wifi.base.y_ofs == 0 && (wifi.pixmap matches
        PixmapSource::Glyph(glyph) && glyph@ == crate::assets::LvglPixmap::WIFI@)
            && wifi.base.info@ == "Demo Wifi Icon"@),
        (r@[0] matches LvglWidget::Area(area) && r@[2] matches LvglWidget::Pixmap(sd)
            && sd.base.uid@ == "Icon-Nfc"@ && sd.base.parent == area.base.handle && sd.base.x_ofs
            == 35 && sd.base.y_ofs == 0 && (sd.pixmap matches PixmapSource::Glyph(glyph) && glyph@
            == crate::assets::LvglPixmap::SD_CARD@) && sd.base.style.text_color == Some(
            LvglColor { red: 255, green: 0, blue: 0 },
        )),
        r@[3] matches LvglWidget::Pixmap(battery) && battery.base.uid@ == "Icon-Battery"@
            && battery.base.parent == root.spec_handle() && battery.base.x_ofs == 50
            && battery.base.y_ofs == 0 && (battery.pixmap matches PixmapSource::Glyph(glyph)
            && glyph@ == crate::assets::LvglPixmap::BATTERY_2@),
{
    let mut area = LvglArea::new(ctx, root, "Icon-Area", x_ofs, y_ofs);
    area.set_size(80, 40);
    area.set_padding(5, 2, 5, 5);
    area.set_title("icon area", 3, 5, &LvglMkFont::std_10());
    let area_widget = area.finalize();

    let mut wifi = LvglPixmap::new(
        ctx,
        &area_widget,
        "Icon-wifi",
        &crate::assets::LvglPixmap::WIFI,
        10,
        0,
    );
    wifi.set_info("Demo Wifi Icon");
    let mut sd = LvglPixmap::new(
        ctx,
        &area_widget,
        "Icon-Nfc",
        &crate::assets::LvglPixmap::SD_CARD,
        35,
        0,
    );
    sd.set_color(LvglColor::rvb(255, 0, 0));
    let battery = LvglPixmap::new(
        ctx,
        root,
        "Icon-Battery",
        &crate::assets::LvglPixmap::BATTERY_2,
        50,
        0,
    );

    let mut out: Vec<LvglWidget> = Vec::new();
    out.push(area_widget);
    out.push(wifi.finalize());
    out.push(sd.finalize());
    out.push(battery.finalize());
    out
}

/// Show a captioned area with a red and a green LED inside it, both lit,
/// both ten by ten.
pub fn draw_led(ctx: &mut LvglHandle, root: &LvglWidget, x_ofs: i16, y_ofs: i16) -> (r: Vec<
    LvglWidget,
>)
    requires
        old(ctx).wf(),
        old(ctx).next_obj <= u64::MAX - 3,
    ensures
        *final(ctx) == (LvglHandle { next_obj: (old(ctx).next_obj + 3) as u64, ..*old(ctx) }),
        r@.len() == 3,
        r@[0] matches LvglWidget::Area(area) && area.base.uid@ == "Led-Area"@ && area.base.handle
            != 0 && area.base.parent == root.spec_handle() && area.base.x_ofs == x_ofs
            && area.base.y_ofs == y_ofs && area.base.width == Some(70i16) && area.base.height
            == Some(40i16) && (area.base.title matches Some(caption) && caption.text@
            == spec_native_text("led area".spec_bytes(), spec_label_placeholder())
            && caption.x_ofs == 7 && caption.y_ofs == 7),
        (r@[0] matches LvglWidget::Area(area) && r@[1] matches LvglWidget::Led(red)
            && red.base.uid@ == "Led-Red"@ && red.base.parent == area.base.handle
            && red.base.x_ofs == 10 && red.base.y_ofs == 0 && red.base.width == Some(10i16)
            && red.base.height == Some(10i16) && red.on == true && red.color == Some(
            crate::assets::spec_palette_color(0),
        ) && red.base.info@ == "red led"@),
        (r@[0] matches LvglWidget::Area(area) && r@[2] matches LvglWidget::Led(green)
            && green.base.uid@ == "Led-Green"@ && green.base.parent == area.base.handle
            && green.base.x_ofs == 35 && green.base.y_ofs == 0 && green.base.width == Some(10i16)
            && green.base.height == Some(10i16) && green.on == true && green.color == Some(
            LvglColor { red: 0, green: 255, blue: 0 },
        ) && green.brightness == 255 && green.base.info@ == "green led"@),
{
    let mut area = LvglArea::new(ctx, root, "Led-Area", x_ofs, y_ofs);
    area.set_size(70, 40);
    area.set_padding(10, 2, 5, 5);
    area.set_title("led area", 7, 7, &LvglMkFont::std_10());
    let area_widget = area.finalize();

    let mut red = LvglLed::new(ctx, &area_widget, "Led-Red", 10, 0);
    red.set_info("red led");
    red.set_color(LvglColor::RED());
    red.set_size(10, 10);
    red.set_on(true);

    let mut green = LvglLed::new(ctx, &area_widget, "Led-Green", 35, 0);
    green.set_color(LvglColor::rvb(0, 255, 0));
    green.set_info("green led");
    green.set_brightness(255);
    green.set_size(10, 10);
    green.set_on(true);

    let mut out: Vec<LvglWidget> = Vec::new();
    out.push(area_widget);
    out.push(red.finalize());
    out.push(green.finalize());
    out
}

/// Show a captioned area at the given offsets under the root, holding an
/// unlocked switch set off and a locked switch set on, both reporting to
/// the given handler.
pub fn draw_switch(ctx: &mut LvglHandle, root: &LvglWidget, x_ofs: i16, y_ofs: i16, ctrlbox: u64)
    -> (r: Vec<LvglWidget>)
    requires
        old(ctx).wf(),
        old(ctx).next_obj <= u64::MAX - 3,
    ensures
        *final(ctx) == (LvglHandle { next_obj: (old(ctx).next_obj + 3) as u64, ..*old(ctx) }),
        r@.len() == 3,
        r@[0] matches LvglWidget::Area(area) && area.base.uid@ == "Switch-Area"@
            && area.base.handle != 0 && area.base.parent == root.spec_handle()
            && area.base.x_ofs == x_ofs && area.base.y_ofs == y_ofs && area.base.width == Some(
            150i16,
        ) && area.base.height == Some(50i16) && area.base.style.pad_top == 5
            && area.base.style.pad_bottom == 2 && area.base.style.pad_right == 5
            && area.base.style.pad_left == 10 && (area.base.title matches Some(caption)
            && caption.text@ == spec_native_text(
            "switch area".spec_bytes(),
            spec_label_placeholder(),
        ) && caption.x_ofs == 35 && caption.y_ofs == 5 && caption.font == (LvglFont {
            size: 10,
        })),
        (r@[0] matches LvglWidget::Area(area) && r@[1] matches LvglWidget::Switch(unlocked)
            && unlocked.base.uid@ == "Switch-1"@ && unlocked.base.parent == area.base.handle
            && unlocked.base.x_ofs == 0 && unlocked.base.y_ofs == 0 && unlocked.base.states == 0
            && !spec_state_set(unlocked.base.states, LvglState::CHECKED) && !spec_state_set(
            unlocked.base.states,
            LvglState::DISABLED,
        ) && unlocked.base.ctrlbox == Some(ctrlbox) && unlocked.base.height == Some(20i16) && (
        unlocked.base.title matches Some(caption) && caption.text@ == spec_native_text(
            "Unlock".spec_bytes(),
            spec_label_placeholder(),
        ) && caption.x_ofs == 3 && caption.y_ofs == 5)),
        (r@[0] matches LvglWidget::Area(area) && r@[2] matches LvglWidget::Switch(locked)
            && locked.base.uid@ == "Switch-2"@ && locked.base.parent == area.base.handle
            && locked.base.x_ofs == 75 && locked.base.y_ofs == 0 && locked.base.states == (
        LV_STATE_CHECKED | LV_STATE_DISABLED) && spec_state_set(
            locked.base.states,
            LvglState::CHECKED,
        ) && spec_state_set(locked.base.states, LvglState::DISABLED) && locked.base.ctrlbox
            == Some(ctrlbox) && locked.base.height == Some(20i16) && (locked.base.title matches
        Some(caption) && caption.text@ == spec_native_text(
            "Locked".spec_bytes(),
            spec_label_placeholder(),
        ) && caption.x_ofs == 3 && caption.y_ofs == 5)),
{
    let mut area = LvglArea::new(ctx, root, "Switch-Area", x_ofs, y_ofs);
    area.set_size(150, 50);
    area.set_padding(5, 2, 5, 10);
    area.set_title("switch area", 35, 5, &LvglMkFont::std_10());
    let area_widget = area.finalize();

    let mut unlocked = LvglSwitch::new(ctx, &area_widget, "Switch-1", 0, 0);
    unlocked.set_title("Unlock", 3, 5, &LvglMkFont::std_10());
    unlocked.set_disable(false);
    unlocked.set_value(false);
    unlocked.set_callback(ctrlbox);
    unlocked.set_height(20);
    proof {
        assert((LV_STATE_CHECKED & !LV_STATE_DISABLED) & !LV_STATE_CHECKED == 0) by (bit_vector);
        assert(LV_STATE_CHECKED & 0u16 == 0) by (bit_vector);
        assert(LV_STATE_DISABLED & 0u16 == 0) by (bit_vector);
    }

    let mut locked = LvglSwitch::new(ctx, &area_widget, "Switch-2", 75, 0);
    locked.set_title("Locked", 3, 5, &LvglMkFont::std_10());
    locked.set_disable(true);
    locked.set_value(true);
    locked.set_callback(ctrlbox);
    locked.set_height(20);
    proof {
        assert((LV_STATE_CHECKED | LV_STATE_DISABLED) | LV_STATE_CHECKED == (LV_STATE_CHECKED
            | LV_STATE_DISABLED)) by (bit_vector);
        assert(LV_STATE_CHECKED & (LV_STATE_CHECKED | LV_STATE_DISABLED) != 0) by (bit_vector);
        assert(LV_STATE_DISABLED & (LV_STATE_CHECKED | LV_STATE_DISABLED) != 0) by (bit_vector);
    }

    let mut out: Vec<LvglWidget> = Vec::new();
    out.push(area_widget);
    out.push(unlocked.finalize());
    out.push(locked.finalize());
    out
}

/// Show a wide one-line message zone.
pub fn draw_text(ctx: &mut LvglHandle, root: &LvglWidget, x_ofs: i16, y_ofs: i16) -> (r: Vec<
    LvglWidget,
>)
    requires
        old(ctx).wf(),
        old(ctx).next_obj < u64::MAX,
    ensures
        *final(ctx) == (LvglHandle { next_obj: (old(ctx).next_obj + 1) as u64, ..*old(ctx) }),
        r@.len() == 1,
        r@[0] matches LvglWidget::TextArea(text) && text.base.uid@ == "Text-Area"@
            && text.base.handle != 0 && text.base.parent == root.spec_handle()
            && text.base.x_ofs == x_ofs && text.base.y_ofs == y_ofs && text.base.info@
            == "Demo Text area Zone"@ && text.base.width == Some(600i16) && text.text@
            == spec_native_text("display message zone".spec_bytes(), spec_text_placeholder()),
{
    let mut text = LvglTextArea::new(ctx, root, "Text-Area", x_ofs, y_ofs);
    text.set_info("Demo Text area Zone");
    text.set_width(600);
    text.set_value("display message zone");
    let mut out: Vec<LvglWidget> = Vec::new();
    out.push(text.finalize());
    out
}

/// Show a red rounded polyline over five points.
pub fn draw_line(ctx: &mut LvglHandle, root: &LvglWidget, x_ofs: i16, y_ofs: i16) -> (r: Vec<
    LvglWidget,
>)
    requires
        old(ctx).wf(),
        old(ctx).next_obj < u64::MAX,
    ensures
        *final(ctx) == (LvglHandle { next_obj: (old(ctx).next_obj + 1) as u64, ..*old(ctx) }),
        r@.len() == 1,
        r@[0] matches LvglWidget::Line(line) && line.base.uid@ == "Line"@ && line.base.handle != 0
            && line.base.parent == root.spec_handle() && line.base.x_ofs == x_ofs
            && line.base.y_ofs == y_ofs && line.points@ == seq![
            LvglPoint { x: 5i16, y: 5i16 },
            LvglPoint { x: 70i16, y: 70i16 },
            LvglPoint { x: 120i16, y: 10i16 },
            LvglPoint { x: 180i16, y: 60i16 },
            LvglPoint { x: 240i16, y: 10i16 },
        ] && line.base.style.line_color == Some(crate::assets::spec_palette_color(0))
            && line.base.style.line_width == 8 && line.base.style.line_rounded == true,
{
    let points: Vec<LvglPoint> = vec![
        LvglPoint { x: 5, y: 5 },
        LvglPoint { x: 70, y: 70 },
        LvglPoint { x: 120, y: 10 },
        LvglPoint { x: 180, y: 60 },
        LvglPoint { x: 240, y: 10 },
    ];
    let mut line = LvglLine::new(ctx, root, "Line", x_ofs, y_ofs);
    line.set_color(LvglColor::RED());
    line.set_width(8);
    line.set_rounded(true);
    line.set_points(points);
    let mut out: Vec<LvglWidget> = Vec::new();
    out.push(line.finalize());
    out
}

/// Show two labelled, bordered buttons at their offsets under the root, and
/// a captioned clickable icon button above them, all reporting to the given
/// handler.
pub fn draw_button(ctx: &mut LvglHandle, root: &LvglWidget, x_ofs: i16, y_ofs: i16, ctrlbox: u64)
    -> (r: Vec<LvglWidget>)
    requires
        old(ctx).wf(),
        old(ctx).next_obj <= u64::MAX - 3,
        x_ofs <= i16::MAX - 50,
        y_ofs <= i16::MAX - 110,
        y_ofs >= i16::MIN + 60,
    ensures
        *final(ctx) == (LvglHandle { next_obj: (old(ctx).next_obj + 3) as u64, ..*old(ctx) }),
        r@.len() == 3,
        r@[0] matches LvglWidget::Button(first) && first.base.uid@ == "Button-A"@
            && first.base.handle != 0 && first.base.parent == root.spec_handle()
            && first.base.x_ofs == x_ofs && first.base.y_ofs == y_ofs && first.text@
            == spec_native_text("Test-1".spec_bytes(), spec_label_placeholder())
            && first.base.width == Some(180i16) && first.base.height == Some(100i16)
            && first.base.style.text_font == Some(LvglFont { size: 18 })
            && first.base.style.border_width == 3 && first.base.style.border_color == Some(
            crate::assets::spec_palette_color(15),
        ) && first.base.ctrlbox == Some(ctrlbox),
        r@[1] matches LvglWidget::Button(second) && second.base.uid@ == "Button-B"@
            && second.base.parent == root.spec_handle() && second.base.x_ofs == x_ofs + 50
            && second.base.y_ofs == y_ofs + 110 && second.text@ == spec_native_text(
            "Test-2".spec_bytes(),
            spec_label_placeholder(),
        ) && second.base.style.text_font == Some(LvglFont { size: 14 }) && second.base.ctrlbox
            == Some(ctrlbox),
        r@[2] matches LvglWidget::PixButton(icon) && icon.base.uid@ == "Button-Img"@
            && icon.base.parent == root.spec_handle() && icon.base.x_ofs == x_ofs + 50
            && icon.base.y_ofs == y_ofs - 60 && (icon.pixmap matches PixmapSource::Glyph(glyph)
            && glyph@ == crate::assets::LvglPixmap::HOME@) && icon.base.style.bg_color == Some(
            crate::assets::spec_palette_color(17),
        ) && icon.base.style.border_width == 3 && icon.base.style.border_color == Some(
            crate::assets::spec_palette_color(3),
        ) && (icon.base.title matches Some(caption) && caption.text@ == spec_native_text(
            "Clickable".spec_bytes(),
            spec_label_placeholder(),
        ) && caption.x_ofs == -13 && caption.y_ofs == 25) && icon.base.ctrlbox == Some(ctrlbox),
{
    let mut first = LvglButton::new(ctx, root, "Button-A", &LvglMkFont::std_18(), x_ofs, y_ofs);
    first.set_value("Test-1");
    first.set_size(180, 100);
    first.set_border(3, LvglColor::DEEP_ORANGE());
    first.set_callback(ctrlbox);

    let mut second = LvglButton::new(
        ctx,
        root,
        "Button-B",
        &LvglMkFont::std_14(),
        x_ofs + 50,
        y_ofs + 110,
    );
    second.set_value("Test-2");
    second.set_callback(ctrlbox);

    let mut icon = LvglPixButton::new(ctx, root, "Button-Img", x_ofs + 50, y_ofs - 60);
    icon.set_value(&crate::assets::LvglPixmap::HOME);
    icon.set_background(LvglColor::BLUE_GREY());
    icon.set_title("Clickable", -13, 25, &LvglMkFont::std_10());
    icon.set_border(3, LvglColor::DEEP_PURPLE());
    icon.set_callback(ctrlbox);

    let mut out: Vec<LvglWidget> = Vec::new();
    out.push(first.finalize());
    out.push(second.finalize());
    out.push(icon.finalize());
    out
}

/// Show an arc gauge swept from 0 to 300 degrees, set near its middle.
pub fn draw_arc(ctx: &mut LvglHandle, root: &LvglWidget, x_ofs: i16, y_ofs: i16) -> (r: Vec<
    LvglWidget,
>)
    requires
        old(ctx).wf(),
        old(ctx).next_obj < u64::MAX,
    ensures
        *final(ctx) == (LvglHandle { next_obj: (old(ctx).next_obj + 1) as u64, ..*old(ctx) }),
        r@.len() == 1,
        r@[0] matches LvglWidget::Arc(arc) && arc.base.uid@ == "Arc"@ && arc.base.handle != 0
            && arc.base.parent == root.spec_handle() && arc.base.x_ofs == x_ofs
            && arc.base.y_ofs == y_ofs && arc.bg_start == 0 && arc.bg_end == 300 && arc.value
            == 180 && arc.base.info@ == "Arc widget"@,
{
    let mut arc = LvglArc::new(ctx, root, "Arc", 0, 300, x_ofs, y_ofs);
    arc.set_info("Arc widget");
    arc.set_value(180);
    let mut out: Vec<LvglWidget> = Vec::new();
    out.push(arc.finalize());
    out
}

/// Show the project mascot, loaded from the demo's asset directory, with
/// its caption.
pub fn draw_tux(ctx: &mut LvglHandle, root: &LvglWidget, x_ofs: i16, y_ofs: i16) -> (r: Vec<
    LvglWidget,
>)
    requires
        old(ctx).wf(),
        old(ctx).next_obj < u64::MAX,
    ensures
        *final(ctx) == (LvglHandle { next_obj: (old(ctx).next_obj + 1) as u64, ..*old(ctx) }),
        r@.len() == 1,
        r@[0] matches LvglWidget::Image(image) && image.base.uid@ == "tux-evse"@
            && image.base.handle != 0 && image.base.parent == root.spec_handle()
            && image.base.x_ofs == x_ofs && image.base.y_ofs == y_ofs && image.src@
            == spec_image_src("assets/tux-evsex250.png".spec_bytes()) && (image.base.title matches
        Some(caption) && caption.text@ == spec_native_text(
            "tux-evse mascot".spec_bytes(),
            spec_label_placeholder(),
        ) && caption.x_ofs == 65 && caption.y_ofs == 0),
{
    let mut image = LvglImage::new(ctx, root, "tux-evse", "assets/tux-evsex250.png", x_ofs, y_ofs);
    image.set_title("tux-evse mascot", 65, 0, &LvglMkFont::std_14());
    let mut out: Vec<LvglWidget> = Vec::new();
    out.push(image.finalize());
    out
}

/// Show a QR code pointing at the project's repository, with its caption.
pub fn draw_qrcode(ctx: &mut LvglHandle, root: &LvglWidget, x_ofs: i16, y_ofs: i16) -> (r: Vec<
    LvglWidget,
>)
    requires
        old(ctx).wf(),
        old(ctx).next_obj < u64::MAX,
    ensures
        *final(ctx) == (LvglHandle { next_obj: (old(ctx).next_obj + 1) as u64, ..*old(ctx) }),
        r@.len() == 1,
        r@[0] matches LvglWidget::Qrcode(qrcode) && qrcode.base.uid@ == "qr-code"@
            && qrcode.base.handle != 0 && qrcode.base.parent == root.spec_handle()
            && qrcode.base.x_ofs == x_ofs && qrcode.base.y_ofs == y_ofs && qrcode.size == 150
            && qrcode.data@ == "https://github.com/tux-evse".spec_bytes() && qrcode.dark_color
            == crate::assets::spec_palette_color(6) && qrcode.light_color
            == crate::assets::spec_palette_color(3) && (qrcode.base.title matches Some(caption)
            && caption.text@ == spec_native_text(
            "tux-evse@github".spec_bytes(),
            spec_label_placeholder(),
        ) && caption.x_ofs == 15 && caption.y_ofs == 15),
{
    let mut qrcode = LvglQrcode::new(
        ctx,
        root,
        "qr-code",
        LvglColor::LIGHT_BLUE(),
        LvglColor::DEEP_PURPLE(),
        150,
        x_ofs,
        y_ofs,
    );
    qrcode.set_value("https://github.com/tux-evse");
    qrcode.set_title("tux-evse@github", 15, 15, &LvglMkFont::std_14());
    let mut out: Vec<LvglWidget> = Vec::new();
    out.push(qrcode.finalize());
    out
}

/// Show a vertical and a horizontal gradient bar over the range 10 to 90,
/// side by side under the root.
pub fn draw_bar(ctx: &mut LvglHandle, root: &LvglWidget, x_ofs: i16, y_ofs: i16) -> (r: Vec<
    LvglWidget,
>)
    requires
        old(ctx).wf(),
        old(ctx).next_obj <= u64::MAX - 2,
        y_ofs >= i16::MIN + 30,
    ensures
        *final(ctx) == (LvglHandle { next_obj: (old(ctx).next_obj + 2) as u64, ..*old(ctx) }),
        r@.len() == 2,
        r@[0] matches LvglWidget::Bar(vertical) && vertical.base.uid@ == "Bar-1"@
            && vertical.base.handle != 0 && vertical.base.parent == root.spec_handle()
            && vertical.base.x_ofs == x_ofs && vertical.base.y_ofs == y_ofs && vertical.min == 10
            && vertical.max == 90 && vertical.value == 60 && vertical.base.width == Some(10i16)
            && vertical.base.height == Some(250i16) && vertical.base.style.bg_grad_vertical
            == true,
        r@[1] matches LvglWidget::Bar(horizontal) && horizontal.base.uid@ == "Bar-2"@
            && horizontal.base.parent == root.spec_handle() && horizontal.base.x_ofs == x_ofs
            && horizontal.base.y_ofs == y_ofs - 30 && horizontal.min == 10 && horizontal.max == 90
            && horizontal.value == 40 && horizontal.base.width == Some(250i16)
            && horizontal.base.height == Some(10i16) && horizontal.base.style.bg_grad_vertical
            == false,
{
    let mut vertical = LvglBar::new(ctx, root, "Bar-1", 10, 90, x_ofs, y_ofs);
    vertical.set_info("variable bar");
    vertical.set_size(10, 250);
    vertical.set_gradient(true, LvglColor::GREEN(), LvglColor::YELLOW());
    vertical.set_value(60);

    let mut horizontal = LvglBar::new(ctx, root, "Bar-2", 10, 90, x_ofs, y_ofs - 30);
    horizontal.set_info("variable bar");
    horizontal.set_size(250, 10);
    horizontal.set_gradient(false, LvglColor::GREEN(), LvglColor::YELLOW());
    horizontal.set_value(40);

    let mut out: Vec<LvglWidget> = Vec::new();
    out.push(vertical.finalize());
    out.push(horizontal.finalize());
    out
}

/// Show a meter with a tick scale, a red and a green zone, and the needle
/// at the middle of the scale.
pub fn draw_meter(ctx: &mut LvglHandle, root: &LvglWidget, x_ofs: i16, y_ofs: i16) -> (r: Vec<
    LvglWidget,
>)
    requires
        old(ctx).wf(),
        old(ctx).next_obj < u64::MAX,
    ensures
        *final(ctx) == (LvglHandle { next_obj: (old(ctx).next_obj + 1) as u64, ..*old(ctx) }),
        r@.len() == 1,
        r@[0] matches LvglWidget::Meter(meter) && meter.base.uid@ == "Meter"@ && meter.base.handle
            != 0 && meter.base.parent == root.spec_handle() && meter.base.x_ofs == x_ofs
            && meter.base.y_ofs == y_ofs && meter.base.width == Some(200i16) && meter.base.height
            == Some(200i16) && meter.value == 50 && meter.needle_width == 4 && meter.needle_ratio
            == -10 && (meter.ticks matches Some(ticks) && ticks.line_width == 3
            && ticks.tick_count == 41 && ticks.nth_major == 8 && ticks.major_width
            == spec_three_halves(3) && ticks.major_length == spec_three_halves(10))
            && meter.zones@.len() == 2 && meter.zones@[0] == (MeterZone {
            start: 0,
            end: 20,
            width: 4,
            color: crate::assets::spec_palette_color(0),
        }) && meter.zones@[1] == (MeterZone {
            start: 80,
            end: 100,
            width: 4,
            color: crate::assets::spec_palette_color(9),
        }),
{
    let mut meter = LvglMeter::new(ctx, root, "Meter", 4, -10, LvglColor::INDIGO(), x_ofs, y_ofs);
    meter.set_size(200, 200);
    meter.set_tic(3, 10, 41, 10, 8, LvglColor::BLUE_GREY(), LvglColor::GREY());
    meter.set_zone(0, 20, 4, LvglColor::RED());
    meter.set_zone(80, 100, 4, LvglColor::GREEN());
    meter.set_border(4, LvglColor::LIGHT_BLUE());
    meter.set_background(LvglColor::PINK());
    meter.set_value(50);
    let mut out: Vec<LvglWidget> = Vec::new();
    out.push(meter.finalize());
    out
}

/// Show a container area at the given offsets under the root, holding a
/// gradient bar and an arc.
pub fn draw_area(ctx: &mut LvglHandle, root: &LvglWidget, x_ofs: i16, y_ofs: i16) -> (r: Vec<
    LvglWidget,
>)
    requires
        old(ctx).wf(),
        old(ctx).next_obj <= u64::MAX - 3,
    ensures
        *final(ctx) == (LvglHandle { next_obj: (old(ctx).next_obj + 3) as u64, ..*old(ctx) }),
        r@.len() == 3,
        r@[0] matches LvglWidget::Area(area) && area.base.uid@ == "Area"@ && area.base.handle != 0
            && area.base.parent == root.spec_handle() && area.base.x_ofs == x_ofs
            && area.base.y_ofs == y_ofs && area.base.width == Some(200i16) && area.base.height
            == Some(200i16),
        (r@[0] matches LvglWidget::Area(area) && r@[1] matches LvglWidget::Bar(bar)
            && bar.base.uid@ == "Bar-1"@ && bar.base.parent == area.base.handle
            && bar.base.x_ofs == 10 && bar.base.y_ofs == 10 && bar.min == 10 && bar.max == 90
            && bar.value == 60),
        (r@[0] matches LvglWidget::Area(area) && r@[2] matches LvglWidget::Arc(arc)
            && arc.base.uid@ == "Arc"@ && arc.base.parent == area.base.handle && arc.base.x_ofs
            == 100 && arc.base.y_ofs == 100 && arc.value == 180),
{
    let mut area = LvglArea::new(ctx, root, "Area", x_ofs, y_ofs);
    area.set_size(200, 200);
    let area_widget = area.finalize();

    let mut bar = LvglBar::new(ctx, &area_widget, "Bar-1", 10, 90, 10, 10);
    bar.set_info("variable bar");
    bar.set_size(10, 250);
    bar.set_gradient(true, LvglColor::GREEN(), LvglColor::YELLOW());
    bar.set_value(60);

    let mut arc = LvglArc::new(ctx, &area_widget, "Arc", 0, 300, 100, 100);
    arc.set_info("Arc widget");
    arc.set_value(180);

    let mut out: Vec<LvglWidget> = Vec::new();
    out.push(area_widget);
    out.push(bar.finalize());
    out.push(arc.finalize());
    out
}

} // verus!
