//! The kind-erased widget union and the event dispatch pipeline.
//!
//! Widgets of every kind join the object tree as an [`LvglWidget`].  The
//! native side reports an event as an object plus a numeric code;
//! [`lvgl_events_cb`] decodes the code and asks the widget for its dispatch
//! decision.  Each forwarding kind has an allow-list of exactly one semantic
//! event — a button forwards only `PRESSED`, a switch only `VALUE_CHANGED` —
//! and every other kind forwards nothing, shielding application handlers
//! from noisy intermediate states.  The decision comes back as an
//! [`LvglNotice`]; the driver around the library performs the actual handler
//! call.

use vstd::prelude::*;
use crate::core_widgets::LvglArc;
use crate::core_widgets::LvglArea;
use crate::core_widgets::LvglBar;
use crate::core_widgets::LvglButton;
use crate::core_widgets::LvglImage;
use crate::core_widgets::LvglLabel;
use crate::core_widgets::LvglLed;
use crate::core_widgets::LvglLine;
use crate::core_widgets::LvglPixButton;
use crate::core_widgets::LvglPixmap;
use crate::core_widgets::LvglSwitch;
use crate::core_widgets::LvglTextArea;
use crate::display::ROOT_HANDLE;
use crate::events::LvglEvent;
use crate::events::spec_event_of;
use crate::extra_widgets::LvglMeter;
use crate::extra_widgets::LvglQrcode;
use crate::widget::LvglCommon;
use crate::widget::WidgetBase;
use crate::widget::spec_register;

verus! {

/// A point of a line widget.
#[derive(Clone, Copy, Debug, PartialEq, Eq, Structural)]
pub struct LvglPoint {
    /// Horizontal coordinate.
    pub x: i16,
    /// Vertical coordinate.
    pub y: i16,
}

/// A native image descriptor: a bitmap held in memory, with its pixel size
/// and raw pixel data, as the native image loader consumes it.
#[derive(Clone, Debug)]
pub struct LvglImgDsc {
    /// Width in pixels.
    pub width: u32,
    /// Height in pixels.
    pub height: u32,
    /// The raw pixel data.
    pub data: Vec<u8>,
}

/// A widget of any kind, as it stands in the object tree.  `Display` is the
/// pseudo-widget for the screen's root object.
pub enum LvglWidget {
    /// A text label.
    Label(LvglLabel),
    /// A push button with a text label.
    Button(LvglButton),
    /// A push button showing an icon.
    PixButton(LvglPixButton),
    /// An icon.
    Pixmap(LvglPixmap),
    /// A one-line text area.
    TextArea(LvglTextArea),
    /// An LED.
    Led(LvglLed),
    /// A polyline.
    Line(LvglLine),
    /// A bitmap image loaded from a path.
    Image(LvglImage),
    /// An arc gauge.
    Arc(LvglArc),
    /// A meter with a needle.
    Meter(LvglMeter),
    /// An on/off switch.
    Switch(LvglSwitch),
    /// A progress bar.
    Bar(LvglBar),
    /// A QR code.
    Qrcode(LvglQrcode),
    /// A plain container area.
    Area(LvglArea),
    /// The screen's root object.
    Display,
}

/// The handler an application registers on a widget.  The library never
/// implements it: the driver around the library calls it with the notices
/// the dispatch decision returns.
pub trait LvglHandler {
    /// Receive one forwarded event for the widget `uid`.
    fn callback(&self, widget: &LvglWidget, uid: &'static str, event: &LvglEvent);
}

/// A dispatch decision: which registered handler is owed which event for
/// which widget.
#[derive(Clone, Copy, Debug)]
pub struct LvglNotice {
    /// The registered handler the event is owed to.
    pub ctrlbox: u64,
    /// Identifier of the widget the event happened on.
    pub uid: &'static str,
    /// The semantic event to forward.
    pub event: LvglEvent,
}

/// The dispatch decision of a widget whose allow-list holds exactly
/// `allowed`: an event is forwarded if and only if a handler is registered
/// and the event is the allowed one.
pub open spec fn spec_notice(base: WidgetBase, event: LvglEvent, allowed: LvglEvent) -> Option<
    LvglNotice,
> {
    match base.ctrlbox {
        Some(ctrlbox) => if event == allowed {
            Some(LvglNotice { ctrlbox, uid: base.uid, event })
        } else {
            None
        },
        None => None,
    }
}

/// Event filtering is exact: with a handler registered, a widget whose
/// allow-list holds `allowed` forwards exactly that event and drops every
/// other, and what it forwards goes to the registered handler under the
/// widget's own identifier.
pub proof fn lemma_filter_exact(base: WidgetBase, event: LvglEvent, allowed: LvglEvent)
    ensures
        spec_notice(base, event, allowed) is Some <==> base.ctrlbox is Some && event == allowed,
        spec_notice(base, event, allowed) matches Some(notice) ==> notice.event == allowed
            && notice.uid == base.uid && Some(notice.ctrlbox) == base.ctrlbox,
{
}

/// A switch forwards exactly the value-changed event.
pub proof fn lemma_switch_forwards_only_value_changed(switch: LvglSwitch, event: LvglEvent)
    requires
        switch.base.ctrlbox is Some,
    ensures
        spec_notice(switch.base, event, LvglEvent::VALUE_CHANGED) is Some <==> event
            == LvglEvent::VALUE_CHANGED,
{
}

/// A button forwards exactly the pressed event.
pub proof fn lemma_button_forwards_only_pressed(button: LvglButton, event: LvglEvent)
    requires
        button.base.ctrlbox is Some,
    ensures
        spec_notice(button.base, event, LvglEvent::PRESSED) is Some <==> event
            == LvglEvent::PRESSED,
{
}

/// A pixmap button forwards exactly the pressed event.
pub proof fn lemma_pix_button_forwards_only_pressed(button: LvglPixButton, event: LvglEvent)
    requires
        button.base.ctrlbox is Some,
    ensures
        spec_notice(button.base, event, LvglEvent::PRESSED) is Some <==> event
            == LvglEvent::PRESSED,
{
}

/// Through the union, dispatch is exact: a forwarded notice exists if and
/// only if the widget is a button or pixmap button with a handler seeing
/// `PRESSED`, or a switch with a handler seeing `VALUE_CHANGED`.  Every
/// other widget kind, every other event, and every widget without a
/// handler forwards nothing.
pub proof fn lemma_union_dispatch_exact(widget: LvglWidget, event: LvglEvent)
    ensures
        widget.spec_callback(event) is Some <==> ((widget matches LvglWidget::Button(button)
            && button.base.ctrlbox is Some && event == LvglEvent::PRESSED) || (widget matches
        LvglWidget::PixButton(button) && button.base.ctrlbox is Some && event
            == LvglEvent::PRESSED) || (widget matches LvglWidget::Switch(switch)
            && switch.base.ctrlbox is Some && event == LvglEvent::VALUE_CHANGED)),
{
}

/// Through the union as well, handler registration is idempotent: after a
/// first registration, a second one leaves the widget exactly as it was,
/// whatever handler it names.
pub proof fn lemma_union_register_idempotent(widget: LvglWidget, first: u64, second: u64)
    ensures
        widget.spec_set_callback(first).spec_set_callback(second) == widget.spec_set_callback(
            first,
        ),
{
    match widget {
        LvglWidget::Button(button) => {
            crate::widget::lemma_register_idempotent(button.base, first, second);
        },
        LvglWidget::PixButton(button) => {
            crate::widget::lemma_register_idempotent(button.base, first, second);
        },
        LvglWidget::Switch(switch) => {
            crate::widget::lemma_register_idempotent(switch.base, first, second);
        },
        _ => {},
    }
}

impl LvglWidget {
    /// The widget's object handle.
    pub open spec fn spec_handle(&self) -> u64 {
        match self {
            LvglWidget::Label(w) => w.base.handle,
            LvglWidget::Button(w) => w.base.handle,
            LvglWidget::PixButton(w) => w.base.handle,
            LvglWidget::Pixmap(w) => w.base.handle,
            LvglWidget::TextArea(w) => w.base.handle,
            LvglWidget::Led(w) => w.base.handle,
            LvglWidget::Line(w) => w.base.handle,
            LvglWidget::Image(w) => w.base.handle,
            LvglWidget::Arc(w) => w.base.handle,
            LvglWidget::Meter(w) => w.base.handle,
            LvglWidget::Switch(w) => w.base.handle,
            LvglWidget::Bar(w) => w.base.handle,
            LvglWidget::Qrcode(w) => w.base.handle,
            LvglWidget::Area(w) => w.base.handle,
            LvglWidget::Display => ROOT_HANDLE,
        }
    }

    /// The widget's identifier; the root object answers to `"Root"`.
    pub open spec fn spec_uid(&self) -> &'static str {
        match self {
            LvglWidget::Label(w) => w.base.uid,
            LvglWidget::Button(w) => w.base.uid,
            LvglWidget::PixButton(w) => w.base.uid,
            LvglWidget::Pixmap(w) => w.base.uid,
            LvglWidget::TextArea(w) => w.base.uid,
            LvglWidget::Led(w) => w.base.uid,
            LvglWidget::Line(w) => w.base.uid,
            LvglWidget::Image(w) => w.base.uid,
            LvglWidget::Arc(w) => w.base.uid,
            LvglWidget::Meter(w) => w.base.uid,
            LvglWidget::Switch(w) => w.base.uid,
            LvglWidget::Bar(w) => w.base.uid,
            LvglWidget::Qrcode(w) => w.base.uid,
            LvglWidget::Area(w) => w.base.uid,
            LvglWidget::Display => "Root",
        }
    }

    /// The widget's dispatch decision for a semantic event.  Only buttons,
    /// pixmap buttons and switches take part in event dispatch; every other
    /// kind forwards nothing.
    pub open spec fn spec_callback(&self, event: LvglEvent) -> Option<LvglNotice> {
        match self {
            LvglWidget::Button(w) => spec_notice(w.base, event, LvglEvent::PRESSED),
            LvglWidget::PixButton(w) => spec_notice(w.base, event, LvglEvent::PRESSED),
            LvglWidget::Switch(w) => spec_notice(w.base, event, LvglEvent::VALUE_CHANGED),
            _ => None,
        }
    }

    /// The widget after a handler registration through the union: the kinds
    /// that take part in event dispatch register the handler (keeping their
    /// first one, if any); every other kind is left as it is.
    pub open spec fn spec_set_callback(self, ctrlbox: u64) -> LvglWidget {
        match self {
            LvglWidget::Button(w) => LvglWidget::Button(
                LvglButton { base: spec_register(w.base, ctrlbox), ..w },
            ),
            LvglWidget::PixButton(w) => LvglWidget::PixButton(
                LvglPixButton { base: spec_register(w.base, ctrlbox), ..w },
            ),
            LvglWidget::Switch(w) => LvglWidget::Switch(
                LvglSwitch { base: spec_register(w.base, ctrlbox), ..w },
            ),
            _ => self,
        }
    }

    /// The widget's dispatch decision for a semantic event.
    pub fn callback(&self, event: &LvglEvent) -> (r: Option<LvglNotice>)
        ensures
            r == self.spec_callback(*event),
    {
        match self {
            LvglWidget::Button(w) => w.callback(event),
            LvglWidget::PixButton(w) => w.callback(event),
            LvglWidget::Switch(w) => w.callback(event),
            _ => None,
        }
    }

    /// Register an event handler on the widget.  Only the kinds that take
    /// part in event dispatch store it; a handler already stored is kept.
    pub fn set_callback(&mut self, ctrlbox: u64)
        ensures
            *final(self) == old(self).spec_set_callback(ctrlbox),
    {
        match self {
            LvglWidget::Button(w) => w.set_callback(ctrlbox),
            LvglWidget::PixButton(w) => w.set_callback(ctrlbox),
            LvglWidget::Switch(w) => w.set_callback(ctrlbox),
            _ => {},
        }
    }

    /// The widget's object handle.
    pub fn get_handle(&self) -> (r: u64)
        ensures
            r == self.spec_handle(),
    {
        match self {
            LvglWidget::Label(w) => w.base.handle,
            LvglWidget::Button(w) => w.base.handle,
            LvglWidget::PixButton(w) => w.base.handle,
            LvglWidget::Pixmap(w) => w.base.handle,
            LvglWidget::TextArea(w) => w.base.handle,
            LvglWidget::Led(w) => w.base.handle,
            LvglWidget::Line(w) => w.base.handle,
            LvglWidget::Image(w) => w.base.handle,
            LvglWidget::Arc(w) => w.base.handle,
            LvglWidget::Meter(w) => w.base.handle,
            LvglWidget::Switch(w) => w.base.handle,
            LvglWidget::Bar(w) => w.base.handle,
            LvglWidget::Qrcode(w) => w.base.handle,
            LvglWidget::Area(w) => w.base.handle,
            LvglWidget::Display => crate::display::ROOT_HANDLE,
        }
    }

    /// The widget as the union itself, ready for matching on its kind.
    /// The union replaces type erasure: a handler that needs the concrete
    /// widget matches on the variant instead of downcasting.
    pub fn as_any(&self) -> (r: &LvglWidget)
        ensures
            r == self,
    {
        self
    }

    /// The widget's identifier.
    pub fn get_uid(&self) -> (r: &'static str)
        ensures
            r == self.spec_uid(),
    {
        match self {
            LvglWidget::Label(w) => w.base.uid,
            LvglWidget::Button(w) => w.base.uid,
            LvglWidget::PixButton(w) => w.base.uid,
            LvglWidget::Pixmap(w) => w.base.uid,
            LvglWidget::TextArea(w) => w.base.uid,
            LvglWidget::Led(w) => w.base.uid,
            LvglWidget::Line(w) => w.base.uid,
            LvglWidget::Image(w) => w.base.uid,
            LvglWidget::Arc(w) => w.base.uid,
            LvglWidget::Meter(w) => w.base.uid,
            LvglWidget::Switch(w) => w.base.uid,
            LvglWidget::Bar(w) => w.base.uid,
            LvglWidget::Qrcode(w) => w.base.uid,
            LvglWidget::Area(w) => w.base.uid,
            LvglWidget::Display => "Root",
        }
    }
}

/// The native event callback, one per process: recover the originating
/// widget, decode the native code into its semantic event, and return the
/// widget's dispatch decision.
pub fn lvgl_events_cb(widget: &LvglWidget, code: u32) -> (r: Option<LvglNotice>)
    ensures
        r == widget.spec_callback(spec_event_of(code)),
{
    let event = LvglEvent::from(code);
    widget.callback(&event)
}

} // verus!
