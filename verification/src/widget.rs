//! Shared widget bookkeeping: the base record every widget carries, the
//! style record, and the two capability traits.
//!
//! Every widget owns a [`WidgetBase`]: its object handle, identifier, info
//! string, position, size, state word, style and optional event-handler
//! registration.  [`LvglCommon`] gives uniform access to that record and
//! carries the handler registration; [`LvglMethod`] carries the shared
//! setters (size, color, border, padding, title, ...).  Both traits implement
//! everything on top of two small accessors, so a widget type only has to say
//! where its base record lives.

use vstd::prelude::*;
use vstd::string::StringSliceAdditionalSpecFns;
use crate::assets::LvglColor;
use crate::assets::LvglFont;
use crate::events::LV_STATE_CHECKED;
use crate::events::LV_STATE_DISABLED;
use crate::events::LvglState;
use crate::events::LvglStates;
use crate::events::spec_state_set;
use crate::generic::LvglWidget;
use crate::text::marshal_text;
use crate::text::spec_native_text;

verus! {

/// Half opacity.
pub const LV_OPA_50: u8 = 0x7f;

/// Full opacity.
pub const LV_OPA_COVER: u8 = 0xff;

/// The style record attached to a widget: visual attributes, populated
/// field by field and kept for the widget's whole life.
#[derive(Clone, Debug)]
pub struct LvglStyle {
    /// Font of the widget's text, when one was applied.
    pub text_font: Option<LvglFont>,
    /// Color of the widget's text, when one was applied.
    pub text_color: Option<LvglColor>,
    /// Width of the border line.
    pub border_width: i16,
    /// Color of the border line, when one was applied.
    pub border_color: Option<LvglColor>,
    /// Padding above the content.
    pub pad_top: i16,
    /// Padding below the content.
    pub pad_bottom: i16,
    /// Padding right of the content.
    pub pad_right: i16,
    /// Padding left of the content.
    pub pad_left: i16,
    /// True when the corner radius was set to a full circle.
    pub radius_circle: bool,
    /// Background color, when one was applied.
    pub bg_color: Option<LvglColor>,
    /// Background opacity.
    pub bg_opa: u8,
    /// Second color of a background gradient, when one was applied.
    pub bg_grad_color: Option<LvglColor>,
    /// True when the background gradient runs vertically.
    pub bg_grad_vertical: bool,
    /// Width of a line widget's stroke.
    pub line_width: i16,
    /// Color of a line widget's stroke, when one was applied.
    pub line_color: Option<LvglColor>,
    /// True when a line widget's ends are rounded.
    pub line_rounded: bool,
    /// Width of an arc widget's stroke.
    pub arc_width: i16,
    /// Color of an arc widget's stroke, when one was applied.
    pub arc_color: Option<LvglColor>,
    /// True when an arc widget's ends are rounded.
    pub arc_rounded: bool,
}

/// The zero-initialized style a widget starts with.
pub open spec fn spec_style_default() -> LvglStyle {
    LvglStyle {
        text_font: None,
        text_color: None,
        border_width: 0,
        border_color: None,
        pad_top: 0,
        pad_bottom: 0,
        pad_right: 0,
        pad_left: 0,
        radius_circle: false,
        bg_color: None,
        bg_opa: 0,
        bg_grad_color: None,
        bg_grad_vertical: false,
        line_width: 0,
        line_color: None,
        line_rounded: false,
        arc_width: 0,
        arc_color: None,
        arc_rounded: false,
    }
}

/// Make the zero-initialized style a widget starts with.
pub fn style_default() -> (r: LvglStyle)
    ensures
        r == spec_style_default(),
{
    LvglStyle {
        text_font: None,
        text_color: None,
        border_width: 0,
        border_color: None,
        pad_top: 0,
        pad_bottom: 0,
        pad_right: 0,
        pad_left: 0,
        radius_circle: false,
        bg_color: None,
        bg_opa: 0,
        bg_grad_color: None,
        bg_grad_vertical: false,
        line_width: 0,
        line_color: None,
        line_rounded: false,
        arc_width: 0,
        arc_color: None,
        arc_rounded: false,
    }
}

/// A caption label placed beside a widget by `set_title`.
#[derive(Clone, Debug)]
pub struct TitleLabel {
    /// The caption text, already marshaled for the native boundary.
    pub text: Vec<u8>,
    /// Horizontal offset from the widget.
    pub x_ofs: i16,
    /// Vertical offset from the widget.
    pub y_ofs: i16,
    /// Font of the caption.
    pub font: LvglFont,
}

/// The bookkeeping record shared by all widgets.
#[derive(Clone, Debug)]
pub struct WidgetBase {
    /// The widget's object handle; never zero once constructed.
    pub handle: u64,
    /// Handle of the parent object the widget was created under.
    pub parent: u64,
    /// The widget's identifier, chosen by the application.
    pub uid: &'static str,
    /// A free-form info string, empty until set.
    pub info: &'static str,
    /// Horizontal offset from the parent's top-left corner.
    pub x_ofs: i16,
    /// Vertical offset from the parent's top-left corner.
    pub y_ofs: i16,
    /// Width, when one was applied.
    pub width: Option<i16>,
    /// Height, when one was applied.
    pub height: Option<i16>,
    /// The object state word (checked, disabled, ...).
    pub states: u16,
    /// The registered event handler, at most one for the widget's life.
    pub ctrlbox: Option<u64>,
    /// The style record attached to the widget.
    pub style: LvglStyle,
    /// The caption label placed beside the widget, when one was set.
    pub title: Option<TitleLabel>,
}

/// The base record a fresh widget starts with: the given handle, parent,
/// identifier and position; everything else at its default.
pub open spec fn spec_base_new(
    handle: u64,
    parent: u64,
    uid: &'static str,
    x_ofs: i16,
    y_ofs: i16,
) -> WidgetBase {
    WidgetBase {
        handle,
        parent,
        uid,
        info: "",
        x_ofs,
        y_ofs,
        width: None,
        height: None,
        states: 0,
        ctrlbox: None,
        style: spec_style_default(),
        title: None,
    }
}

/// Make the base record of a fresh widget.
pub fn base_new(handle: u64, parent: u64, uid: &'static str, x_ofs: i16, y_ofs: i16) -> (r:
    WidgetBase)
    ensures
        r == spec_base_new(handle, parent, uid, x_ofs, y_ofs),
{
    WidgetBase {
        handle,
        parent,
        uid,
        info: "",
        x_ofs,
        y_ofs,
        width: None,
        height: None,
        states: 0,
        ctrlbox: None,
        style: style_default(),
        title: None,
    }
}

/// Handler registration: the first registration stores the handler, any
/// later one is a no-op, so a widget keeps its first handler for life.
pub open spec fn spec_register(base: WidgetBase, ctrlbox: u64) -> WidgetBase {
    match base.ctrlbox {
        Some(_) => base,
        None => WidgetBase { ctrlbox: Some(ctrlbox), ..base },
    }
}

/// Registering an event handler is idempotent: once a handler is stored,
/// a second registration neither replaces nor duplicates it, whatever
/// handler it names.
pub proof fn lemma_register_idempotent(base: WidgetBase, first: u64, second: u64)
    ensures
        spec_register(spec_register(base, first), second) == spec_register(base, first),
{
}

/// A state word with one bit switched on or off.
pub open spec fn spec_set_state_bit(word: u16, bit: u16, on: bool) -> u16 {
    if on {
        word | bit
    } else {
        word & !bit
    }
}

/// A switch's value survives the round trip through the state word: after
/// the checked bit is set, a state snapshot reads the checked state as on;
/// after it is cleared, as off — whatever else the word holds.
pub proof fn lemma_checked_bit_roundtrip(word: u16)
    ensures
        spec_state_set(spec_set_state_bit(word, LV_STATE_CHECKED, true), LvglState::CHECKED),
        !spec_state_set(spec_set_state_bit(word, LV_STATE_CHECKED, false), LvglState::CHECKED),
{
    assert(1u16 & (word | 1u16) != 0) by (bit_vector);
    assert(1u16 & (word & !1u16) == 0) by (bit_vector);
}

/// Uniform access to the base record, handle and identifier of a widget,
/// and the event-handler registration.
pub trait LvglCommon: Sized {
    /// The widget's base record.
    spec fn base(&self) -> WidgetBase;

    /// The widget with its base record replaced and everything else kept.
    spec fn with_base(self, base: WidgetBase) -> Self;

    /// The widget wrapped into the kind-erased union.
    spec fn as_widget(self) -> LvglWidget;

    /// Borrow the base record.
    fn base_ref(&self) -> (r: &WidgetBase)
        ensures
            *r == self.base(),
    ;

    /// Mutably borrow the base record; nothing but the base can change
    /// through the borrow.
    fn base_mut(&mut self) -> (r: &mut WidgetBase)
        ensures
            *r == old(self).base(),
            *final(self) == old(self).with_base(*final(r)),
            final(self).base() == *final(r),
    ;

    /// Hand the widget over as the kind-erased union, under which it joins
    /// the object tree for the rest of the process's life.
    fn finalize(self) -> (r: LvglWidget)
        ensures
            r == self.as_widget(),
    ;

    /// The widget's object handle.
    fn get_handle(&self) -> (r: u64)
        ensures
            r == self.base().handle,
    {
        self.base_ref().handle
    }

    /// The widget's identifier.
    fn get_uid(&self) -> (r: &'static str)
        ensures
            r == self.base().uid,
    {
        self.base_ref().uid
    }

    /// The widget's info string.
    fn get_info(&self) -> (r: &'static str)
        ensures
            r == self.base().info,
    {
        self.base_ref().info
    }

    /// Replace the widget's info string.
    fn set_info(&mut self, info: &'static str)
        ensures
            final(self).base() == (WidgetBase { info, ..old(self).base() }),
            *final(self) == old(self).with_base(final(self).base()),
    {
        self.base_mut().info = info;
    }

    /// The actions this widget offers to a controller: none, unless the
    /// widget kind answers for itself with a method of its own.
    fn get_action(&self) -> (r: &'static str)
        ensures
            r@ == "[]"@,
    {
        "[]"
    }

    /// Borrow the widget's style record.
    fn get_style(&self) -> (r: &LvglStyle)
        ensures
            *r == self.base().style,
    {
        &self.base_ref().style
    }

    /// The registered event handler, if any.
    fn get_callback(&self) -> (r: Option<u64>)
        ensures
            r == self.base().ctrlbox,
    {
        self.base_ref().ctrlbox
    }

    /// Register an event handler.  The first registration stores the
    /// handler; once one is stored, a later registration is a no-op.
    fn set_callback(&mut self, ctrlbox: u64)
        ensures
            final(self).base() == spec_register(old(self).base(), ctrlbox),
            *final(self) == old(self).with_base(final(self).base()),
    {
        let base = self.base_mut();
        if base.ctrlbox.is_none() {
            base.ctrlbox = Some(ctrlbox);
        }
    }
}

/// The shared setters every widget offers, each forwarding a field write
/// into the widget's base record.
pub trait LvglMethod: LvglCommon {
    /// Set the widget's width and height.
    fn set_size(&mut self, width: i16, height: i16)
        ensures
            final(self).base() == (WidgetBase {
                width: Some(width),
                height: Some(height),
                ..old(self).base()
            }),
            *final(self) == old(self).with_base(final(self).base()),
    {
        let base = self.base_mut();
        base.width = Some(width);
        base.height = Some(height);
    }

    /// Set the widget's width.
    fn set_width(&mut self, width: i16)
        ensures
            final(self).base() == (WidgetBase { width: Some(width), ..old(self).base() }),
            *final(self) == old(self).with_base(final(self).base()),
    {
        self.base_mut().width = Some(width);
    }

    /// Set the widget's height.
    fn set_height(&mut self, height: i16)
        ensures
            final(self).base() == (WidgetBase { height: Some(height), ..old(self).base() }),
            *final(self) == old(self).with_base(final(self).base()),
    {
        self.base_mut().height = Some(height);
    }

    /// Set the color of the widget's text.
    fn set_color(&mut self, color: LvglColor)
        ensures
            final(self).base() == (WidgetBase {
                style: (LvglStyle { text_color: Some(color), ..old(self).base().style }),
                ..old(self).base()
            }),
            *final(self) == old(self).with_base(final(self).base()),
    {
        self.base_mut().style.text_color = Some(color);
    }

    /// Set the width and color of the widget's border.
    fn set_border(&mut self, width: i16, color: LvglColor)
        ensures
            final(self).base() == (WidgetBase {
                style: (LvglStyle {
                    border_width: width,
                    border_color: Some(color),
                    ..old(self).base().style
                }),
                ..old(self).base()
            }),
            *final(self) == old(self).with_base(final(self).base()),
    {
        let base = self.base_mut();
        base.style.border_width = width;
        base.style.border_color = Some(color);
    }

    /// Set the padding on the four sides of the widget's content.
    fn set_padding(&mut self, top: i16, bottom: i16, right: i16, left: i16)
        ensures
            final(self).base() == (WidgetBase {
                style: (LvglStyle {
                    pad_top: top,
                    pad_bottom: bottom,
                    pad_right: right,
                    pad_left: left,
                    ..old(self).base().style
                }),
                ..old(self).base()
            }),
            *final(self) == old(self).with_base(final(self).base()),
    {
        let base = self.base_mut();
        base.style.pad_top = top;
        base.style.pad_bottom = bottom;
        base.style.pad_right = right;
        base.style.pad_left = left;
    }

    /// Switch the widget's disabled state on or off.
    fn set_disable(&mut self, lock: bool)
        ensures
            final(self).base() == (WidgetBase {
                states: spec_set_state_bit(old(self).base().states, LV_STATE_DISABLED, lock),
                ..old(self).base()
            }),
            *final(self) == old(self).with_base(final(self).base()),
    {
        let base = self.base_mut();
        if lock {
            base.states = base.states | LV_STATE_DISABLED;
        } else {
            base.states = base.states & !LV_STATE_DISABLED;
        }
    }

    /// Round the widget's corners to a full circle.
    fn set_radius(&mut self)
        ensures
            final(self).base() == (WidgetBase {
                style: (LvglStyle { radius_circle: true, ..old(self).base().style }),
                ..old(self).base()
            }),
            *final(self) == old(self).with_base(final(self).base()),
    {
        self.base_mut().style.radius_circle = true;
    }

    /// Place a caption label beside the widget.  Text that cannot cross the
    /// native boundary is replaced by the label placeholder.
    fn set_title(&mut self, text: &str, x_ofs: i16, y_ofs: i16, font: &LvglFont)
        ensures
            final(self).base() == (WidgetBase {
                title: final(self).base().title,
                ..old(self).base()
            }),
            final(self).base().title matches Some(title) && title.text@ == spec_native_text(
                text.spec_bytes(),
                crate::text::spec_label_placeholder(),
            ) && title.x_ofs == x_ofs && title.y_ofs == y_ofs && title.font == *font,
            *final(self) == old(self).with_base(final(self).base()),
    {
        let marshaled = marshal_text(text.as_bytes(), crate::text::label_placeholder());
        self.base_mut().title = Some(TitleLabel { text: marshaled, x_ofs, y_ofs, font: *font });
    }

    /// Set the widget's background color, at half opacity.
    fn set_background(&mut self, color: LvglColor)
        ensures
            final(self).base() == (WidgetBase {
                style: (LvglStyle {
                    bg_color: Some(color),
                    bg_opa: LV_OPA_50,
                    ..old(self).base().style
                }),
                ..old(self).base()
            }),
            *final(self) == old(self).with_base(final(self).base()),
    {
        let base = self.base_mut();
        base.style.bg_color = Some(color);
        base.style.bg_opa = LV_OPA_50;
    }

    /// Read back the widget's state word.
    fn get_states(&self) -> (r: LvglStates)
        ensures
            r.handle == self.base().states,
    {
        LvglStates { handle: self.base_ref().states }
    }
}

} // verus!
