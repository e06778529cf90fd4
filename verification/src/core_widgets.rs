//! The core widget kinds: buttons, labels, icons, images, text areas, LEDs,
//! lines, arcs, switches, bars and plain areas.
//!
//! Every kind is a thin typed wrapper: a [`WidgetBase`] record plus the
//! fields its own setters write.  Construction draws a fresh handle from the
//! display's object registry and never returns the zero handle.  The kinds
//! that take part in event dispatch (button, pixmap button, switch — and the
//! LED and bar, whose decisions the union does not consult) each carry their
//! dispatch decision with an allow-list of exactly one semantic event.

use vstd::prelude::*;
use vstd::string::StringSliceAdditionalSpecFns;
use crate::assets::LvglColor;
use crate::assets::LvglFont;
use crate::display::LvglHandle;
use crate::events::LV_STATE_CHECKED;
use crate::events::LV_STATE_DISABLED;
use crate::events::LvglEvent;
use crate::generic::LvglImgDsc;
use crate::generic::LvglNotice;
use crate::generic::LvglPoint;
use crate::generic::LvglWidget;
use crate::generic::spec_notice;
use crate::text::label_placeholder;
use crate::text::marshal_text;
use crate::text::path_placeholder;
use crate::text::spec_label_placeholder;
use crate::text::spec_native_text;
use crate::text::spec_path_placeholder;
use crate::text::spec_text_placeholder;
use crate::text::text_placeholder;
use crate::widget::LvglCommon;
use crate::widget::LvglMethod;
use crate::widget::LvglStyle;
use crate::widget::WidgetBase;
use crate::widget::base_new;
use crate::widget::spec_base_new;
use crate::widget::spec_set_state_bit;
use crate::widget::spec_style_default;

verus! {

/// Copy a 4-byte icon glyph into an owned buffer.
fn icon_to_vec(icon: &[u8; 4]) -> (r: Vec<u8>)
    ensures
        r@ == icon@,
{
    let mut v: Vec<u8> = Vec::new();
    v.push(icon[0]);
    v.push(icon[1]);
    v.push(icon[2]);
    v.push(icon[3]);
    proof {
        assert(v@ =~= icon@);
    }
    v
}

/// What an icon widget shows: a glyph of the symbol font, or an in-memory
/// image descriptor.
#[derive(Clone, Debug)]
pub enum PixmapSource {
    /// A glyph of the symbol font, as its terminated byte encoding.
    Glyph(Vec<u8>),
    /// An in-memory image descriptor.
    Image(LvglImgDsc),
}

/// The native image source for `path`: the backend's path scheme marker
/// (the two bytes `L:`) in front of the path, or the path placeholder when
/// the marked path cannot cross the native boundary.
pub open spec fn spec_image_src(path: Seq<u8>) -> Seq<u8> {
    spec_native_text(seq![76u8, 58u8] + path, spec_path_placeholder())
}

/// Marshal an image path for the native image loader.
pub fn image_src(path: &str) -> (r: Vec<u8>)
    ensures
        r@ == spec_image_src(path.spec_bytes()),
{
    let path_bytes: &[u8] = path.as_bytes();
    let mut buf: Vec<u8> = Vec::new();
    buf.push(76u8);
    buf.push(58u8);
    proof {
        assert(buf@ =~= seq![76u8, 58u8] + path_bytes@.subrange(0, 0));
    }
    let mut i: usize = 0;
    while i < path_bytes.len()
        invariant
            0 <= i <= path_bytes@.len(),
            buf@ == seq![76u8, 58u8] + path_bytes@.subrange(0, i as int),
        decreases path_bytes@.len() - i,
    {
        buf.push(path_bytes[i]);
        proof {
            assert(buf@ =~= seq![76u8, 58u8] + path_bytes@.subrange(0, i as int + 1));
        }
        i = i + 1;
    }
    proof {
        assert(path_bytes@.subrange(0, path_bytes@.len() as int) =~= path_bytes@);
    }
    marshal_text(buf.as_slice(), path_placeholder())
}

/// A push button with a text label child.
#[derive(Clone, Debug)]
pub struct LvglButton {
    /// Shared bookkeeping.
    pub base: WidgetBase,
    /// The label text shown on the button, marshaled for the native
    /// boundary.
    pub text: Vec<u8>,
    /// True when the label scrolls circularly.
    pub circular: bool,
}

impl LvglCommon for LvglButton {
    open spec fn base(&self) -> WidgetBase {
        self.base
    }

    open spec fn with_base(self, base: WidgetBase) -> Self {
        LvglButton { base, ..self }
    }

    open spec fn as_widget(self) -> LvglWidget {
        LvglWidget::Button(self)
    }

    fn base_ref(&self) -> (r: &WidgetBase) {
        &self.base
    }

    fn base_mut(&mut self) -> (r: &mut WidgetBase) {
        &mut self.base
    }

    fn finalize(self) -> (r: LvglWidget) {
        LvglWidget::Button(self)
    }
}

impl LvglMethod for LvglButton {

}

impl LvglButton {
    /// Create a button under `parent`, with an empty label child using the
    /// given font.  The fresh handle is never zero.
    pub fn new(
        ctx: &mut LvglHandle,
        parent: &LvglWidget,
        uid: &'static str,
        font: &LvglFont,
        x_ofs: i16,
        y_ofs: i16,
    ) -> (r: Self)
        requires
            old(ctx).wf(),
            old(ctx).next_obj < u64::MAX,
        ensures
            *final(ctx) == (LvglHandle { next_obj: (old(ctx).next_obj + 1) as u64, ..*old(ctx) }),
            r.base == (WidgetBase {
                style: (LvglStyle { text_font: Some(*font), ..spec_style_default() }),
                ..spec_base_new(old(ctx).next_obj, parent.spec_handle(), uid, x_ofs, y_ofs)
            }),
            r.base.handle != 0,
            r.text@ == Seq::<u8>::empty(),
            r.circular == false,
    {
        let handle: u64 = ctx.alloc_obj();
        let mut base = base_new(handle, parent.get_handle(), uid, x_ofs, y_ofs);
        base.style.text_font = Some(*font);
        LvglButton { base, text: Vec::new(), circular: false }
    }

    /// Let the button's label scroll circularly.
    pub fn set_circular(&mut self)
        ensures
            *final(self) == (LvglButton { circular: true, ..*old(self) }),
    {
        self.circular = true;
    }

    /// Set the button's label text.  Text that cannot cross the native
    /// boundary is replaced by the label placeholder, never rejected.
    pub fn set_value(&mut self, label: &str)
        ensures
            *final(self) == (LvglButton { text: final(self).text, ..*old(self) }),
            final(self).text@ == spec_native_text(label.spec_bytes(), spec_label_placeholder()),
    {
        self.text = marshal_text(label.as_bytes(), label_placeholder());
    }

    /// Set the button's label from raw bytes, exactly as the native
    /// boundary would receive them.  Bytes that are not valid UTF-8, or
    /// that hold an interior NUL, give the label placeholder.
    pub fn set_value_raw(&mut self, label: &[u8])
        ensures
            *final(self) == (LvglButton { text: final(self).text, ..*old(self) }),
            final(self).text@ == spec_native_text(label@, spec_label_placeholder()),
    {
        self.text = marshal_text(label, label_placeholder());
    }

    /// The dispatch decision for a semantic event: a button forwards only
    /// `PRESSED`, and only once a handler is registered.
    pub fn callback(&self, event: &LvglEvent) -> (r: Option<LvglNotice>)
        ensures
            r == spec_notice(self.base, *event, LvglEvent::PRESSED),
    {
        match self.base.ctrlbox {
            Some(ctrlbox) => match event {
                LvglEvent::PRESSED => Some(
                    LvglNotice { ctrlbox, uid: self.base.uid, event: *event },
                ),
                _ => None,
            },
            None => None,
        }
    }
}

/// A text label.
#[derive(Clone, Debug)]
pub struct LvglLabel {
    /// Shared bookkeeping.
    pub base: WidgetBase,
    /// The label text, marshaled for the native boundary.
    pub text: Vec<u8>,
    /// True when the label scrolls circularly.
    pub circular: bool,
}

impl LvglCommon for LvglLabel {
    open spec fn base(&self) -> WidgetBase {
        self.base
    }

    open spec fn with_base(self, base: WidgetBase) -> Self {
        LvglLabel { base, ..self }
    }

    open spec fn as_widget(self) -> LvglWidget {
        LvglWidget::Label(self)
    }

    fn base_ref(&self) -> (r: &WidgetBase) {
        &self.base
    }

    fn base_mut(&mut self) -> (r: &mut WidgetBase) {
        &mut self.base
    }

    fn finalize(self) -> (r: LvglWidget) {
        LvglWidget::Label(self)
    }
}

impl LvglMethod for LvglLabel {

}

impl LvglLabel {
    /// Create a label under `parent`, empty, with the given font.  The
    /// fresh handle is never zero.
    pub fn new(
        ctx: &mut LvglHandle,
        parent: &LvglWidget,
        uid: &'static str,
        font: &LvglFont,
        x_ofs: i16,
        y_ofs: i16,
    ) -> (r: Self)
        requires
            old(ctx).wf(),
            old(ctx).next_obj < u64::MAX,
        ensures
            *final(ctx) == (LvglHandle { next_obj: (old(ctx).next_obj + 1) as u64, ..*old(ctx) }),
            r.base == (WidgetBase {
                style: (LvglStyle { text_font: Some(*font), ..spec_style_default() }),
                ..spec_base_new(old(ctx).next_obj, parent.spec_handle(), uid, x_ofs, y_ofs)
            }),
            r.base.handle != 0,
            r.text@ == Seq::<u8>::empty(),
            r.circular == false,
    {
        let handle: u64 = ctx.alloc_obj();
        let mut base = base_new(handle, parent.get_handle(), uid, x_ofs, y_ofs);
        base.style.text_font = Some(*font);
        LvglLabel { base, text: Vec::new(), circular: false }
    }

    /// Let the label scroll circularly.
    pub fn set_circular(&mut self)
        ensures
            *final(self) == (LvglLabel { circular: true, ..*old(self) }),
    {
        self.circular = true;
    }

    /// Set the label text.  Text that cannot cross the native boundary is
    /// replaced by the label placeholder, never rejected.
    pub fn set_value(&mut self, text: &str)
        ensures
            *final(self) == (LvglLabel { text: final(self).text, ..*old(self) }),
            final(self).text@ == spec_native_text(text.spec_bytes(), spec_label_placeholder()),
    {
        self.text = marshal_text(text.as_bytes(), label_placeholder());
    }

    /// Set the label text from raw bytes, exactly as the native boundary
    /// would receive them.  Bytes that are not valid UTF-8, or that hold an
    /// interior NUL, give the label placeholder.
    pub fn set_value_raw(&mut self, text: &[u8])
        ensures
            *final(self) == (LvglLabel { text: final(self).text, ..*old(self) }),
            final(self).text@ == spec_native_text(text@, spec_label_placeholder()),
    {
        self.text = marshal_text(text, label_placeholder());
    }
}

/// A push button showing an icon instead of a text label.
#[derive(Clone, Debug)]
pub struct LvglPixButton {
    /// Shared bookkeeping.
    pub base: WidgetBase,
    /// What the button's image child shows.
    pub pixmap: PixmapSource,
}

impl LvglCommon for LvglPixButton {
    open spec fn base(&self) -> WidgetBase {
        self.base
    }

    open spec fn with_base(self, base: WidgetBase) -> Self {
        LvglPixButton { base, ..self }
    }

    open spec fn as_widget(self) -> LvglWidget {
        LvglWidget::PixButton(self)
    }

    fn base_ref(&self) -> (r: &WidgetBase) {
        &self.base
    }

    fn base_mut(&mut self) -> (r: &mut WidgetBase) {
        &mut self.base
    }

    fn finalize(self) -> (r: LvglWidget) {
        LvglWidget::PixButton(self)
    }
}

impl LvglMethod for LvglPixButton {

}

impl LvglPixButton {
    /// Create a pixmap button under `parent`, with an empty image child.
    /// The fresh handle is never zero.
    pub fn new(ctx: &mut LvglHandle, parent: &LvglWidget, uid: &'static str, x_ofs: i16, y_ofs:
        i16) -> (r: Self)
        requires
            old(ctx).wf(),
            old(ctx).next_obj < u64::MAX,
        ensures
            *final(ctx) == (LvglHandle { next_obj: (old(ctx).next_obj + 1) as u64, ..*old(ctx) }),
            r.base == spec_base_new(old(ctx).next_obj, parent.spec_handle(), uid, x_ofs, y_ofs),
            r.base.handle != 0,
            r.pixmap matches PixmapSource::Glyph(glyph) && glyph@ == Seq::<u8>::empty(),
    {
        let handle: u64 = ctx.alloc_obj();
        let base = base_new(handle, parent.get_handle(), uid, x_ofs, y_ofs);
        LvglPixButton { base, pixmap: PixmapSource::Glyph(Vec::new()) }
    }

    /// Show the given icon glyph on the button.
    pub fn set_value(&mut self, pixmap: &[u8; 4])
        ensures
            *final(self) == (LvglPixButton { pixmap: final(self).pixmap, ..*old(self) }),
            final(self).pixmap matches PixmapSource::Glyph(glyph) && glyph@ == pixmap@,
    {
        self.pixmap = PixmapSource::Glyph(icon_to_vec(pixmap));
    }

    /// Show an in-memory image on the button instead of a glyph.
    pub fn set_value_dsc(&mut self, image: LvglImgDsc)
        ensures
            *final(self) == (LvglPixButton { pixmap: PixmapSource::Image(image), ..*old(self) }),
    {
        self.pixmap = PixmapSource::Image(image);
    }

    /// The actions this widget offers to a controller.
    pub fn get_action(&self) -> (r: &'static str)
        ensures
            r@ == "['ON','OFF']"@,
    {
        "['ON','OFF']"
    }

    /// The dispatch decision for a semantic event: a pixmap button forwards
    /// only `PRESSED`, and only once a handler is registered.
    pub fn callback(&self, event: &LvglEvent) -> (r: Option<LvglNotice>)
        ensures
            r == spec_notice(self.base, *event, LvglEvent::PRESSED),
    {
        match self.base.ctrlbox {
            Some(ctrlbox) => match event {
                LvglEvent::PRESSED => Some(
                    LvglNotice { ctrlbox, uid: self.base.uid, event: *event },
                ),
                _ => None,
            },
            None => None,
        }
    }
}

/// An icon widget showing one glyph of the symbol font, or an in-memory
/// image.
#[derive(Clone, Debug)]
pub struct LvglPixmap {
    /// Shared bookkeeping.
    pub base: WidgetBase,
    /// What the widget shows.
    pub pixmap: PixmapSource,
    /// Rotation, in tenths of a degree.
    pub angle: i16,
    /// Zoom factor; 256 is the natural size.
    pub zoom: u16,
}

impl LvglCommon for LvglPixmap {
    open spec fn base(&self) -> WidgetBase {
        self.base
    }

    open spec fn with_base(self, base: WidgetBase) -> Self {
        LvglPixmap { base, ..self }
    }

    open spec fn as_widget(self) -> LvglWidget {
        LvglWidget::Pixmap(self)
    }

    fn base_ref(&self) -> (r: &WidgetBase) {
        &self.base
    }

    fn base_mut(&mut self) -> (r: &mut WidgetBase) {
        &mut self.base
    }

    fn finalize(self) -> (r: LvglWidget) {
        LvglWidget::Pixmap(self)
    }
}

impl LvglMethod for LvglPixmap {

}

impl LvglPixmap {
    /// Create an icon widget under `parent`, showing the given glyph.  The
    /// fresh handle is never zero.
    pub fn new(
        ctx: &mut LvglHandle,
        parent: &LvglWidget,
        uid: &'static str,
        pixmap: &[u8; 4],
        x_ofs: i16,
        y_ofs: i16,
    ) -> (r: Self)
        requires
            old(ctx).wf(),
            old(ctx).next_obj < u64::MAX,
        ensures
            *final(ctx) == (LvglHandle { next_obj: (old(ctx).next_obj + 1) as u64, ..*old(ctx) }),
            r.base == spec_base_new(old(ctx).next_obj, parent.spec_handle(), uid, x_ofs, y_ofs),
            r.base.handle != 0,
            r.pixmap matches PixmapSource::Glyph(glyph) && glyph@ == pixmap@,
            r.angle == 0,
            r.zoom == 256,
    {
        let handle: u64 = ctx.alloc_obj();
        let base = base_new(handle, parent.get_handle(), uid, x_ofs, y_ofs);
        LvglPixmap { base, pixmap: PixmapSource::Glyph(icon_to_vec(pixmap)), angle: 0, zoom: 256 }
    }

    /// Create an icon widget under `parent`, showing an in-memory image.
    /// The fresh handle is never zero.
    pub fn new_dsc(
        ctx: &mut LvglHandle,
        parent: &LvglWidget,
        uid: &'static str,
        image: LvglImgDsc,
        x_ofs: i16,
        y_ofs: i16,
    ) -> (r: Self)
        requires
            old(ctx).wf(),
            old(ctx).next_obj < u64::MAX,
        ensures
            *final(ctx) == (LvglHandle { next_obj: (old(ctx).next_obj + 1) as u64, ..*old(ctx) }),
            r.base == spec_base_new(old(ctx).next_obj, parent.spec_handle(), uid, x_ofs, y_ofs),
            r.base.handle != 0,
            r.pixmap == PixmapSource::Image(image),
            r.angle == 0,
            r.zoom == 256,
    {
        let handle: u64 = ctx.alloc_obj();
        let base = base_new(handle, parent.get_handle(), uid, x_ofs, y_ofs);
        LvglPixmap { base, pixmap: PixmapSource::Image(image), angle: 0, zoom: 256 }
    }

    /// The actions this widget offers to a controller.
    pub fn get_action(&self) -> (r: &'static str)
        ensures
            r@ == "['ON','OFF']"@,
    {
        "['ON','OFF']"
    }

    /// Show another icon glyph.
    pub fn set_value(&mut self, pixmap: &[u8; 4])
        ensures
            *final(self) == (LvglPixmap { pixmap: final(self).pixmap, ..*old(self) }),
            final(self).pixmap matches PixmapSource::Glyph(glyph) && glyph@ == pixmap@,
    {
        self.pixmap = PixmapSource::Glyph(icon_to_vec(pixmap));
    }

    /// Show an in-memory image instead of a glyph.
    pub fn set_value_dsc(&mut self, image: LvglImgDsc)
        ensures
            *final(self) == (LvglPixmap { pixmap: PixmapSource::Image(image), ..*old(self) }),
    {
        self.pixmap = PixmapSource::Image(image);
    }

    /// Rotate the icon, in tenths of a degree.
    pub fn set_angle(&mut self, rotation: i16)
        ensures
            *final(self) == (LvglPixmap { angle: rotation, ..*old(self) }),
    {
        self.angle = rotation;
    }

    /// Zoom the icon; 256 is the natural size.
    pub fn set_zoom(&mut self, zoom: u16)
        ensures
            *final(self) == (LvglPixmap { zoom, ..*old(self) }),
    {
        self.zoom = zoom;
    }
}

/// A bitmap image loaded by the native image loader from a path.
#[derive(Clone, Debug)]
pub struct LvglImage {
    /// Shared bookkeeping.
    pub base: WidgetBase,
    /// The native image source: the scheme-marked path handed to the
    /// loader.
    pub src: Vec<u8>,
    /// Rotation, in tenths of a degree.
    pub angle: i16,
    /// Zoom factor; 256 is the natural size.
    pub zoom: u16,
}

impl LvglCommon for LvglImage {
    open spec fn base(&self) -> WidgetBase {
        self.base
    }

    open spec fn with_base(self, base: WidgetBase) -> Self {
        LvglImage { base, ..self }
    }

    open spec fn as_widget(self) -> LvglWidget {
        LvglWidget::Image(self)
    }

    fn base_ref(&self) -> (r: &WidgetBase) {
        &self.base
    }

    fn base_mut(&mut self) -> (r: &mut WidgetBase) {
        &mut self.base
    }

    fn finalize(self) -> (r: LvglWidget) {
        LvglWidget::Image(self)
    }
}

impl LvglMethod for LvglImage {

}

impl LvglImage {
    /// Create an image widget under `parent`, loading the bitmap at `path`.
    /// The fresh handle is never zero.
    pub fn new(
        ctx: &mut LvglHandle,
        parent: &LvglWidget,
        uid: &'static str,
        path: &str,
        x_ofs: i16,
        y_ofs: i16,
    ) -> (r: Self)
        requires
            old(ctx).wf(),
            old(ctx).next_obj < u64::MAX,
        ensures
            *final(ctx) == (LvglHandle { next_obj: (old(ctx).next_obj + 1) as u64, ..*old(ctx) }),
            r.base == spec_base_new(old(ctx).next_obj, parent.spec_handle(), uid, x_ofs, y_ofs),
            r.base.handle != 0,
            r.src@ == spec_image_src(path.spec_bytes()),
            r.angle == 0,
            r.zoom == 256,
    {
        let handle: u64 = ctx.alloc_obj();
        let base = base_new(handle, parent.get_handle(), uid, x_ofs, y_ofs);
        LvglImage { base, src: image_src(path), angle: 0, zoom: 256 }
    }

    /// Load another bitmap into the widget.
    pub fn set_value(&mut self, path: &str)
        ensures
            *final(self) == (LvglImage { src: final(self).src, ..*old(self) }),
            final(self).src@ == spec_image_src(path.spec_bytes()),
    {
        self.src = image_src(path);
    }

    /// Rotate the image, in tenths of a degree.
    pub fn set_angle(&mut self, rotation: i16)
        ensures
            *final(self) == (LvglImage { angle: rotation, ..*old(self) }),
    {
        self.angle = rotation;
    }

    /// Zoom the image; 256 is the natural size.
    pub fn set_zoom(&mut self, zoom: u16)
        ensures
            *final(self) == (LvglImage { zoom, ..*old(self) }),
    {
        self.zoom = zoom;
    }
}

/// A one-line text area.
#[derive(Clone, Debug)]
pub struct LvglTextArea {
    /// Shared bookkeeping.
    pub base: WidgetBase,
    /// The content, marshaled for the native boundary.
    pub text: Vec<u8>,
}

impl LvglCommon for LvglTextArea {
    open spec fn base(&self) -> WidgetBase {
        self.base
    }

    open spec fn with_base(self, base: WidgetBase) -> Self {
        LvglTextArea { base, ..self }
    }

    open spec fn as_widget(self) -> LvglWidget {
        LvglWidget::TextArea(self)
    }

    fn base_ref(&self) -> (r: &WidgetBase) {
        &self.base
    }

    fn base_mut(&mut self) -> (r: &mut WidgetBase) {
        &mut self.base
    }

    fn finalize(self) -> (r: LvglWidget) {
        LvglWidget::TextArea(self)
    }
}

impl LvglMethod for LvglTextArea {

}

impl LvglTextArea {
    /// Create a one-line text area under `parent`, empty.  The fresh handle
    /// is never zero.
    pub fn new(ctx: &mut LvglHandle, parent: &LvglWidget, uid: &'static str, x_ofs: i16, y_ofs:
        i16) -> (r: Self)
        requires
            old(ctx).wf(),
            old(ctx).next_obj < u64::MAX,
        ensures
            *final(ctx) == (LvglHandle { next_obj: (old(ctx).next_obj + 1) as u64, ..*old(ctx) }),
            r.base == spec_base_new(old(ctx).next_obj, parent.spec_handle(), uid, x_ofs, y_ofs),
            r.base.handle != 0,
            r.text@ == Seq::<u8>::empty(),
    {
        let handle: u64 = ctx.alloc_obj();
        let base = base_new(handle, parent.get_handle(), uid, x_ofs, y_ofs);
        LvglTextArea { base, text: Vec::new() }
    }

    /// Set the content.  Text that cannot cross the native boundary is
    /// replaced by the text placeholder, never rejected.
    pub fn set_value(&mut self, text: &str)
        ensures
            *final(self) == (LvglTextArea { text: final(self).text, ..*old(self) }),
            final(self).text@ == spec_native_text(text.spec_bytes(), spec_text_placeholder()),
    {
        self.text = marshal_text(text.as_bytes(), text_placeholder());
    }

    /// Put text into the area.  The native call behind this replaces the
    /// whole content, exactly as `set_value` does.
    pub fn insert_text(&mut self, text: &str)
        ensures
            *final(self) == (LvglTextArea { text: final(self).text, ..*old(self) }),
            final(self).text@ == spec_native_text(text.spec_bytes(), spec_text_placeholder()),
    {
        self.text = marshal_text(text.as_bytes(), text_placeholder());
    }

    /// Set the content from raw bytes, exactly as the native boundary would
    /// receive them.  Bytes that are not valid UTF-8, or that hold an
    /// interior NUL, give the text placeholder.
    pub fn set_value_raw(&mut self, text: &[u8])
        ensures
            *final(self) == (LvglTextArea { text: final(self).text, ..*old(self) }),
            final(self).text@ == spec_native_text(text@, spec_text_placeholder()),
    {
        self.text = marshal_text(text, text_placeholder());
    }
}

/// An LED.
#[derive(Clone, Debug)]
pub struct LvglLed {
    /// Shared bookkeeping.
    pub base: WidgetBase,
    /// The LED color, when one was applied.
    pub color: Option<LvglColor>,
    /// Brightness, full by default.
    pub brightness: u8,
    /// True when the LED is on.
    pub on: bool,
}

impl LvglCommon for LvglLed {
    open spec fn base(&self) -> WidgetBase {
        self.base
    }

    open spec fn with_base(self, base: WidgetBase) -> Self {
        LvglLed { base, ..self }
    }

    open spec fn as_widget(self) -> LvglWidget {
        LvglWidget::Led(self)
    }

    fn base_ref(&self) -> (r: &WidgetBase) {
        &self.base
    }

    fn base_mut(&mut self) -> (r: &mut WidgetBase) {
        &mut self.base
    }

    fn finalize(self) -> (r: LvglWidget) {
        LvglWidget::Led(self)
    }
}

impl LvglMethod for LvglLed {

}

impl LvglLed {
    /// Create an LED under `parent`, switched off.  The fresh handle is
    /// never zero.
    pub fn new(ctx: &mut LvglHandle, parent: &LvglWidget, uid: &'static str, x_ofs: i16, y_ofs:
        i16) -> (r: Self)
        requires
            old(ctx).wf(),
            old(ctx).next_obj < u64::MAX,
        ensures
            *final(ctx) == (LvglHandle { next_obj: (old(ctx).next_obj + 1) as u64, ..*old(ctx) }),
            r.base == spec_base_new(old(ctx).next_obj, parent.spec_handle(), uid, x_ofs, y_ofs),
            r.base.handle != 0,
            r.color is None,
            r.brightness == 255,
            r.on == false,
    {
        let handle: u64 = ctx.alloc_obj();
        let base = base_new(handle, parent.get_handle(), uid, x_ofs, y_ofs);
        LvglLed { base, color: None, brightness: 255, on: false }
    }

    /// The dispatch decision for a semantic event: an LED forwards only
    /// `PRESSED`, and only once a handler is registered.
    pub fn callback(&self, event: &LvglEvent) -> (r: Option<LvglNotice>)
        ensures
            r == spec_notice(self.base, *event, LvglEvent::PRESSED),
    {
        match self.base.ctrlbox {
            Some(ctrlbox) => match event {
                LvglEvent::PRESSED => Some(
                    LvglNotice { ctrlbox, uid: self.base.uid, event: *event },
                ),
                _ => None,
            },
            None => None,
        }
    }

    /// Set the LED color.
    pub fn set_color(&mut self, color: LvglColor)
        ensures
            *final(self) == (LvglLed { color: Some(color), ..*old(self) }),
    {
        self.color = Some(color);
    }

    /// Set the LED brightness.
    pub fn set_brightness(&mut self, bright: u8)
        ensures
            *final(self) == (LvglLed { brightness: bright, ..*old(self) }),
    {
        self.brightness = bright;
    }

    /// The actions this widget offers to a controller.
    pub fn get_action(&self) -> (r: &'static str)
        ensures
            r@ == "['ON','OFF']"@,
    {
        "['ON','OFF']"
    }

    /// Switch the LED on or off.
    pub fn set_on(&mut self, status: bool)
        ensures
            *final(self) == (LvglLed { on: status, ..*old(self) }),
    {
        self.on = status;
    }
}

/// A polyline.
#[derive(Clone, Debug)]
pub struct LvglLine {
    /// Shared bookkeeping.
    pub base: WidgetBase,
    /// The points of the polyline.
    pub points: Vec<LvglPoint>,
}

impl LvglCommon for LvglLine {
    open spec fn base(&self) -> WidgetBase {
        self.base
    }

    open spec fn with_base(self, base: WidgetBase) -> Self {
        LvglLine { base, ..self }
    }

    open spec fn as_widget(self) -> LvglWidget {
        LvglWidget::Line(self)
    }

    fn base_ref(&self) -> (r: &WidgetBase) {
        &self.base
    }

    fn base_mut(&mut self) -> (r: &mut WidgetBase) {
        &mut self.base
    }

    fn finalize(self) -> (r: LvglWidget) {
        LvglWidget::Line(self)
    }
}

impl LvglMethod for LvglLine {

}

impl LvglLine {
    /// Create a polyline under `parent`, with no points yet.  The fresh
    /// handle is never zero.
    pub fn new(ctx: &mut LvglHandle, parent: &LvglWidget, uid: &'static str, x_ofs: i16, y_ofs:
        i16) -> (r: Self)
        requires
            old(ctx).wf(),
            old(ctx).next_obj < u64::MAX,
        ensures
            *final(ctx) == (LvglHandle { next_obj: (old(ctx).next_obj + 1) as u64, ..*old(ctx) }),
            r.base == spec_base_new(old(ctx).next_obj, parent.spec_handle(), uid, x_ofs, y_ofs),
            r.base.handle != 0,
            r.points@ == Seq::<LvglPoint>::empty(),
    {
        let handle: u64 = ctx.alloc_obj();
        let base = base_new(handle, parent.get_handle(), uid, x_ofs, y_ofs);
        LvglLine { base, points: Vec::new() }
    }

    /// Hand the polyline its points.
    pub fn set_points(&mut self, points: Vec<LvglPoint>)
        ensures
            *final(self) == (LvglLine { points: final(self).points, ..*old(self) }),
            final(self).points == points,
    {
        self.points = points;
    }

    /// Set the line width, on the widget's style.
    pub fn set_width(&mut self, width: i16)
        ensures
            final(self).base == (WidgetBase {
                style: (LvglStyle { line_width: width, ..old(self).base.style }),
                ..old(self).base
            }),
            *final(self) == (LvglLine { base: final(self).base, ..*old(self) }),
    {
        self.base.style.line_width = width;
    }

    /// Set the line color, on the widget's style.
    pub fn set_color(&mut self, color: LvglColor)
        ensures
            final(self).base == (WidgetBase {
                style: (LvglStyle { line_color: Some(color), ..old(self).base.style }),
                ..old(self).base
            }),
            *final(self) == (LvglLine { base: final(self).base, ..*old(self) }),
    {
        self.base.style.line_color = Some(color);
    }

    /// Round the line ends, on the widget's style.
    pub fn set_rounded(&mut self, value: bool)
        ensures
            final(self).base == (WidgetBase {
                style: (LvglStyle { line_rounded: value, ..old(self).base.style }),
                ..old(self).base
            }),
            *final(self) == (LvglLine { base: final(self).base, ..*old(self) }),
    {
        self.base.style.line_rounded = value;
    }
}

/// An arc gauge.
#[derive(Clone, Debug)]
pub struct LvglArc {
    /// Shared bookkeeping.
    pub base: WidgetBase,
    /// Start angle of the background arc.
    pub bg_start: u16,
    /// End angle of the background arc.
    pub bg_end: u16,
    /// Rotation of the whole arc.
    pub rotation: u16,
    /// Lower bound of the value range.
    pub range_min: i16,
    /// Upper bound of the value range.
    pub range_max: i16,
    /// Current value.
    pub value: i16,
    /// True while the arc still shows its knob.
    pub knob: bool,
    /// Arcs are created non-clickable.
    pub clickable: bool,
}

impl LvglCommon for LvglArc {
    open spec fn base(&self) -> WidgetBase {
        self.base
    }

    open spec fn with_base(self, base: WidgetBase) -> Self {
        LvglArc { base, ..self }
    }

    open spec fn as_widget(self) -> LvglWidget {
        LvglWidget::Arc(self)
    }

    fn base_ref(&self) -> (r: &WidgetBase) {
        &self.base
    }

    fn base_mut(&mut self) -> (r: &mut WidgetBase) {
        &mut self.base
    }

    fn finalize(self) -> (r: LvglWidget) {
        LvglWidget::Arc(self)
    }
}

impl LvglMethod for LvglArc {

}

impl LvglArc {
    /// Create an arc under `parent` with the given background angles,
    /// non-clickable.  The fresh handle is never zero.
    pub fn new(
        ctx: &mut LvglHandle,
        parent: &LvglWidget,
        uid: &'static str,
        angle_start: u16,
        angle_end: u16,
        x_ofs: i16,
        y_ofs: i16,
    ) -> (r: Self)
        requires
            old(ctx).wf(),
            old(ctx).next_obj < u64::MAX,
        ensures
            *final(ctx) == (LvglHandle { next_obj: (old(ctx).next_obj + 1) as u64, ..*old(ctx) }),
            r.base == spec_base_new(old(ctx).next_obj, parent.spec_handle(), uid, x_ofs, y_ofs),
            r.base.handle != 0,
            r.bg_start == angle_start,
            r.bg_end == angle_end,
            r.rotation == 0,
            r.range_min == 0,
            r.range_max == 100,
            r.value == 0,
            r.knob == true,
            r.clickable == false,
    {
        let handle: u64 = ctx.alloc_obj();
        let base = base_new(handle, parent.get_handle(), uid, x_ofs, y_ofs);
        LvglArc {
            base,
            bg_start: angle_start,
            bg_end: angle_end,
            rotation: 0,
            range_min: 0,
            range_max: 100,
            value: 0,
            knob: true,
            clickable: false,
        }
    }

    /// Rotate the whole arc.
    pub fn set_rotation(&mut self, angle: u16)
        ensures
            *final(self) == (LvglArc { rotation: angle, ..*old(self) }),
    {
        self.rotation = angle;
    }

    /// Set the value range.
    pub fn set_range(&mut self, min: i16, max: i16)
        ensures
            *final(self) == (LvglArc { range_min: min, range_max: max, ..*old(self) }),
    {
        self.range_min = min;
        self.range_max = max;
    }

    /// Set the current value.  The native setter takes the value as a
    /// 16-bit integer, so wider values are truncated on the way in.
    pub fn set_value(&mut self, value: i32)
        ensures
            *final(self) == (LvglArc { value: value as i16, ..*old(self) }),
    {
        let truncated: i16 = #[verifier::truncate] (value as i16);
        self.value = truncated;
    }

    /// Remove the arc's knob.
    pub fn remove_knob(&mut self)
        ensures
            *final(self) == (LvglArc { knob: false, ..*old(self) }),
    {
        self.knob = false;
    }

    /// Set the arc line width, on the widget's style.
    pub fn set_width(&mut self, width: i16)
        ensures
            final(self).base == (WidgetBase {
                style: (LvglStyle { arc_width: width, ..old(self).base.style }),
                ..old(self).base
            }),
            *final(self) == (LvglArc { base: final(self).base, ..*old(self) }),
    {
        self.base.style.arc_width = width;
    }

    /// Set the arc color, on the widget's style.
    pub fn set_color(&mut self, color: LvglColor)
        ensures
            final(self).base == (WidgetBase {
                style: (LvglStyle { arc_color: Some(color), ..old(self).base.style }),
                ..old(self).base
            }),
            *final(self) == (LvglArc { base: final(self).base, ..*old(self) }),
    {
        self.base.style.arc_color = Some(color);
    }

    /// Round the arc ends, on the widget's style.
    pub fn set_rounded(&mut self, value: bool)
        ensures
            final(self).base == (WidgetBase {
                style: (LvglStyle { arc_rounded: value, ..old(self).base.style }),
                ..old(self).base
            }),
            *final(self) == (LvglArc { base: final(self).base, ..*old(self) }),
    {
        self.base.style.arc_rounded = value;
    }
}

/// An on/off switch.  Its value lives in the checked bit of the state word.
#[derive(Clone, Debug)]
pub struct LvglSwitch {
    /// Shared bookkeeping.
    pub base: WidgetBase,
}

impl LvglCommon for LvglSwitch {
    open spec fn base(&self) -> WidgetBase {
        self.base
    }

    open spec fn with_base(self, base: WidgetBase) -> Self {
        LvglSwitch { base, ..self }
    }

    open spec fn as_widget(self) -> LvglWidget {
        LvglWidget::Switch(self)
    }

    fn base_ref(&self) -> (r: &WidgetBase) {
        &self.base
    }

    fn base_mut(&mut self) -> (r: &mut WidgetBase) {
        &mut self.base
    }

    fn finalize(self) -> (r: LvglWidget) {
        LvglWidget::Switch(self)
    }
}

impl LvglMethod for LvglSwitch {

}

impl LvglSwitch {
    /// Create a switch under `parent`, checked to start with.  The fresh
    /// handle is never zero.
    pub fn new(ctx: &mut LvglHandle, parent: &LvglWidget, uid: &'static str, x_ofs: i16, y_ofs:
        i16) -> (r: Self)
        requires
            old(ctx).wf(),
            old(ctx).next_obj < u64::MAX,
        ensures
            *final(ctx) == (LvglHandle { next_obj: (old(ctx).next_obj + 1) as u64, ..*old(ctx) }),
            r.base == (WidgetBase {
                states: LV_STATE_CHECKED,
                ..spec_base_new(old(ctx).next_obj, parent.spec_handle(), uid, x_ofs, y_ofs)
            }),
            r.base.handle != 0,
    {
        let handle: u64 = ctx.alloc_obj();
        let mut base = base_new(handle, parent.get_handle(), uid, x_ofs, y_ofs);
        base.states = LV_STATE_CHECKED;
        LvglSwitch { base }
    }

    /// The actions this widget offers to a controller.
    pub fn get_action(&self) -> (r: &'static str)
        ensures
            r@ == "['ON','OFF']"@,
    {
        "['ON','OFF']"
    }

    /// Switch the value on or off: set or clear the checked bit of the
    /// state word.
    pub fn set_value(&mut self, on: bool)
        ensures
            final(self).base == (WidgetBase {
                states: spec_set_state_bit(old(self).base.states, LV_STATE_CHECKED, on),
                ..old(self).base
            }),
    {
        if on {
            self.base.states = self.base.states | LV_STATE_CHECKED;
        } else {
            self.base.states = self.base.states & !LV_STATE_CHECKED;
        }
    }

    /// Lock or unlock the switch: set or clear the disabled bit of the
    /// state word.
    pub fn set_lock(&mut self, lock: bool)
        ensures
            final(self).base == (WidgetBase {
                states: spec_set_state_bit(old(self).base.states, LV_STATE_DISABLED, lock),
                ..old(self).base
            }),
    {
        if lock {
            self.base.states = self.base.states | LV_STATE_DISABLED;
        } else {
            self.base.states = self.base.states & !LV_STATE_DISABLED;
        }
    }

    /// The dispatch decision for a semantic event: a switch forwards only
    /// `VALUE_CHANGED`, and only once a handler is registered.
    pub fn callback(&self, event: &LvglEvent) -> (r: Option<LvglNotice>)
        ensures
            r == spec_notice(self.base, *event, LvglEvent::VALUE_CHANGED),
    {
        match self.base.ctrlbox {
            Some(ctrlbox) => match event {
                LvglEvent::VALUE_CHANGED => Some(
                    LvglNotice { ctrlbox, uid: self.base.uid, event: *event },
                ),
                _ => None,
            },
            None => None,
        }
    }
}

/// A progress bar.
#[derive(Clone, Debug)]
pub struct LvglBar {
    /// Shared bookkeeping.
    pub base: WidgetBase,
    /// Lower bound of the value range.
    pub min: i32,
    /// Upper bound of the value range.
    pub max: i32,
    /// Current value.
    pub value: i32,
}

impl LvglCommon for LvglBar {
    open spec fn base(&self) -> WidgetBase {
        self.base
    }

    open spec fn with_base(self, base: WidgetBase) -> Self {
        LvglBar { base, ..self }
    }

    open spec fn as_widget(self) -> LvglWidget {
        LvglWidget::Bar(self)
    }

    fn base_ref(&self) -> (r: &WidgetBase) {
        &self.base
    }

    fn base_mut(&mut self) -> (r: &mut WidgetBase) {
        &mut self.base
    }

    fn finalize(self) -> (r: LvglWidget) {
        LvglWidget::Bar(self)
    }
}

impl LvglMethod for LvglBar {

}

impl LvglBar {
    /// Create a bar under `parent` with the given value range.  The fresh
    /// handle is never zero.
    pub fn new(
        ctx: &mut LvglHandle,
        parent: &LvglWidget,
        uid: &'static str,
        min: i32,
        max: i32,
        x_ofs: i16,
        y_ofs: i16,
    ) -> (r: Self)
        requires
            old(ctx).wf(),
            old(ctx).next_obj < u64::MAX,
        ensures
            *final(ctx) == (LvglHandle { next_obj: (old(ctx).next_obj + 1) as u64, ..*old(ctx) }),
            r.base == spec_base_new(old(ctx).next_obj, parent.spec_handle(), uid, x_ofs, y_ofs),
            r.base.handle != 0,
            r.min == min,
            r.max == max,
            r.value == 0,
    {
        let handle: u64 = ctx.alloc_obj();
        let base = base_new(handle, parent.get_handle(), uid, x_ofs, y_ofs);
        LvglBar { base, min, max, value: 0 }
    }

    /// Paint the bar's indicator with a gradient between `background` and
    /// `color`, running vertically or horizontally, at full opacity.
    pub fn set_gradient(&mut self, vertical: bool, color: LvglColor, background: LvglColor)
        ensures
            final(self).base == (WidgetBase {
                style: (LvglStyle {
                    bg_color: Some(background),
                    bg_opa: crate::widget::LV_OPA_COVER,
                    bg_grad_color: Some(color),
                    bg_grad_vertical: vertical,
                    ..old(self).base.style
                }),
                ..old(self).base
            }),
            *final(self) == (LvglBar { base: final(self).base, ..*old(self) }),
    {
        self.base.style.bg_opa = crate::widget::LV_OPA_COVER;
        self.base.style.bg_color = Some(background);
        self.base.style.bg_grad_color = Some(color);
        self.base.style.bg_grad_vertical = vertical;
    }

    /// Set the current value.
    pub fn set_value(&mut self, value: i32)
        ensures
            *final(self) == (LvglBar { value, ..*old(self) }),
    {
        self.value = value;
    }

    /// The dispatch decision for a semantic event: a bar forwards only
    /// `VALUE_CHANGED`, and only once a handler is registered.
    pub fn callback(&self, event: &LvglEvent) -> (r: Option<LvglNotice>)
        ensures
            r == spec_notice(self.base, *event, LvglEvent::VALUE_CHANGED),
    {
        match self.base.ctrlbox {
            Some(ctrlbox) => match event {
                LvglEvent::VALUE_CHANGED => Some(
                    LvglNotice { ctrlbox, uid: self.base.uid, event: *event },
                ),
                _ => None,
            },
            None => None,
        }
    }
}

/// A plain container area.
#[derive(Clone, Debug)]
pub struct LvglArea {
    /// Shared bookkeeping.
    pub base: WidgetBase,
}

impl LvglCommon for LvglArea {
    open spec fn base(&self) -> WidgetBase {
        self.base
    }

    open spec fn with_base(self, base: WidgetBase) -> Self {
        LvglArea { base, ..self }
    }

    open spec fn as_widget(self) -> LvglWidget {
        LvglWidget::Area(self)
    }

    fn base_ref(&self) -> (r: &WidgetBase) {
        &self.base
    }

    fn base_mut(&mut self) -> (r: &mut WidgetBase) {
        &mut self.base
    }

    fn finalize(self) -> (r: LvglWidget) {
        LvglWidget::Area(self)
    }
}

impl LvglMethod for LvglArea {

}

impl LvglArea {
    /// Create a container area under `parent`.  The fresh handle is never
    /// zero.
    pub fn new(ctx: &mut LvglHandle, parent: &LvglWidget, uid: &'static str, x_ofs: i16, y_ofs:
        i16) -> (r: Self)
        requires
            old(ctx).wf(),
            old(ctx).next_obj < u64::MAX,
        ensures
            *final(ctx) == (LvglHandle { next_obj: (old(ctx).next_obj + 1) as u64, ..*old(ctx) }),
            r.base == spec_base_new(old(ctx).next_obj, parent.spec_handle(), uid, x_ofs, y_ofs),
            r.base.handle != 0,
    {
        let handle: u64 = ctx.alloc_obj();
        let base = base_new(handle, parent.get_handle(), uid, x_ofs, y_ofs);
        LvglArea { base }
    }
}

} // verus!
