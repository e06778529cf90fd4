//! Behavioural checks: handle validity on construction, exact event
//! filtering, placeholder substitution, idempotent handler registration,
//! total event decoding, and the switch round trip.

use lvgl_ui::assets::LvglColor;
use lvgl_ui::assets::LvglMkFont;
use lvgl_ui::core_widgets::LvglArc;
use lvgl_ui::core_widgets::LvglArea;
use lvgl_ui::core_widgets::LvglBar;
use lvgl_ui::core_widgets::LvglButton;
use lvgl_ui::core_widgets::LvglImage;
use lvgl_ui::core_widgets::LvglLabel;
use lvgl_ui::core_widgets::LvglLed;
use lvgl_ui::core_widgets::LvglLine;
use lvgl_ui::core_widgets::LvglPixButton;
use lvgl_ui::core_widgets::LvglPixmap;
use lvgl_ui::core_widgets::LvglSwitch;
use lvgl_ui::core_widgets::LvglTextArea;
use lvgl_ui::core_widgets::PixmapSource;
use lvgl_ui::demo::display_init;
use lvgl_ui::events::LvglEvent;
use lvgl_ui::events::LvglState;
use lvgl_ui::events::LvglStates;
use lvgl_ui::extra_widgets::LvglMeter;
use lvgl_ui::extra_widgets::LvglQrcode;
use lvgl_ui::generic::LvglWidget;
use lvgl_ui::generic::lvgl_events_cb;
use lvgl_ui::widget::LvglCommon;
use lvgl_ui::widget::LvglMethod;

fn all_events() -> Vec<LvglEvent> {
    vec![
        LvglEvent::PRESSED,
        LvglEvent::PRESSING,
        LvglEvent::PRESS_LOST,
        LvglEvent::SHORT_CLICKED,
        LvglEvent::LONG_PRESSED,
        LvglEvent::LONG_PRESSED_REPEAT,
        LvglEvent::CLICKED,
        LvglEvent::RELEASED,
        LvglEvent::FOCUSED,
        LvglEvent::DEFOCUSED,
        LvglEvent::LEAVE,
        LvglEvent::VALUE_CHANGED,
        LvglEvent::UNKNOWN,
    ]
}

#[test]
fn every_widget_kind_constructs_with_a_valid_handle() {
    let mut display = display_init();
    let root = display.get_root_widget();
    let font = LvglMkFont::std_14();
    let icon = lvgl_ui::assets::LvglPixmap::OK;
    let color = LvglColor::rvb(1, 2, 3);

    let mut handles: Vec<u64> = Vec::new();
    handles.push(LvglButton::new(&mut display, &root, "b", &font, 0, 0).get_handle());
    handles.push(LvglLabel::new(&mut display, &root, "l", &font, 0, 0).get_handle());
    handles.push(LvglPixButton::new(&mut display, &root, "pb", 0, 0).get_handle());
    handles.push(LvglPixmap::new(&mut display, &root, "p", &icon, 0, 0).get_handle());
    handles.push(LvglImage::new(&mut display, &root, "i", "a.png", 0, 0).get_handle());
    handles.push(LvglTextArea::new(&mut display, &root, "t", 0, 0).get_handle());
    handles.push(LvglLed::new(&mut display, &root, "led", 0, 0).get_handle());
    handles.push(LvglLine::new(&mut display, &root, "line", 0, 0).get_handle());
    handles.push(LvglArc::new(&mut display, &root, "arc", 0, 360, 0, 0).get_handle());
    handles.push(LvglSwitch::new(&mut display, &root, "s", 0, 0).get_handle());
    handles.push(LvglBar::new(&mut display, &root, "bar", 0, 10, 0, 0).get_handle());
    handles.push(LvglArea::new(&mut display, &root, "area", 0, 0).get_handle());
    handles.push(LvglMeter::new(&mut display, &root, "m", 1, -1, color, 0, 0).get_handle());
    handles.push(LvglQrcode::new(&mut display, &root, "q", color, color, 10, 0, 0).get_handle());

    for handle in &handles {
        assert_ne!(*handle, 0);
    }
    // The registry never hands the same handle out twice.
    for first in 0..handles.len() {
        for second in (first + 1)..handles.len() {
            assert_ne!(handles[first], handles[second]);
        }
    }
}

#[test]
fn switch_forwards_exactly_value_changed() {
    let mut display = display_init();
    let root = display.get_root_widget();
    let mut switch = LvglSwitch::new(&mut display, &root, "s", 0, 0);
    switch.set_callback(7);
    let mut forwarded = 0;
    for event in all_events() {
        if let Some(notice) = switch.callback(&event) {
            forwarded += 1;
            assert_eq!(notice.event, LvglEvent::VALUE_CHANGED);
            assert_eq!(notice.ctrlbox, 7);
            assert_eq!(notice.uid, "s");
        }
    }
    assert_eq!(forwarded, 1);
}

#[test]
fn button_forwards_exactly_pressed() {
    let mut display = display_init();
    let root = display.get_root_widget();
    let font = LvglMkFont::std_14();
    let mut button = LvglButton::new(&mut display, &root, "b", &font, 0, 0);
    button.set_callback(3);
    let mut forwarded = 0;
    for event in all_events() {
        if let Some(notice) = button.callback(&event) {
            forwarded += 1;
            assert_eq!(notice.event, LvglEvent::PRESSED);
        }
    }
    assert_eq!(forwarded, 1);
}

#[test]
fn pix_button_forwards_exactly_pressed() {
    let mut display = display_init();
    let root = display.get_root_widget();
    let mut button = LvglPixButton::new(&mut display, &root, "pb", 0, 0);
    button.set_callback(4);
    let mut forwarded = 0;
    for event in all_events() {
        if let Some(notice) = button.callback(&event) {
            forwarded += 1;
            assert_eq!(notice.event, LvglEvent::PRESSED);
        }
    }
    assert_eq!(forwarded, 1);
}

#[test]
fn widget_without_handler_forwards_nothing() {
    let mut display = display_init();
    let root = display.get_root_widget();
    let switch = LvglSwitch::new(&mut display, &root, "s", 0, 0);
    for event in all_events() {
        assert!(switch.callback(&event).is_none());
    }
}

#[test]
fn union_dispatch_reaches_only_dispatching_kinds() {
    let mut display = display_init();
    let root = display.get_root_widget();
    let font = LvglMkFont::std_14();

    let mut label = LvglLabel::new(&mut display, &root, "l", &font, 0, 0);
    label.set_callback(9);
    let mut label_widget = label.finalize();
    // Registration through the union leaves non-dispatching kinds alone...
    label_widget.set_callback(9);
    for code in 0..40u32 {
        assert!(lvgl_events_cb(&label_widget, code).is_none());
    }

    let mut switch = LvglSwitch::new(&mut display, &root, "s", 0, 0);
    switch.set_callback(5);
    let switch_widget = switch.finalize();
    // ... while a switch answers exactly the value-changed code.
    for code in 0..40u32 {
        let notice = lvgl_events_cb(&switch_widget, code);
        if code == 28 {
            let notice = notice.expect("value-changed must be forwarded");
            assert_eq!(notice.event, LvglEvent::VALUE_CHANGED);
            assert_eq!(notice.ctrlbox, 5);
        } else {
            assert!(notice.is_none());
        }
    }
}

#[test]
fn non_utf8_label_text_yields_the_placeholder() {
    let mut display = display_init();
    let root = display.get_root_widget();
    let font = LvglMkFont::std_14();
    let mut label = LvglLabel::new(&mut display, &root, "l", &font, 0, 0);
    label.set_value_raw(&[0xff, 0xfe, 0x41]);
    assert_eq!(label.text, b"Non UTF8 label".to_vec());
    label.set_value("fine");
    assert_eq!(label.text, b"fine".to_vec());
}

#[test]
fn non_utf8_button_text_yields_the_placeholder() {
    let mut display = display_init();
    let root = display.get_root_widget();
    let font = LvglMkFont::std_14();
    let mut button = LvglButton::new(&mut display, &root, "b", &font, 0, 0);
    button.set_value_raw(&[0xc0, 0x80]);
    assert_eq!(button.text, b"Non UTF8 label".to_vec());
}

#[test]
fn non_utf8_text_area_content_yields_the_placeholder() {
    let mut display = display_init();
    let root = display.get_root_widget();
    let mut text = LvglTextArea::new(&mut display, &root, "t", 0, 0);
    text.set_value_raw(&[0xed, 0xa0, 0x80]);
    assert_eq!(text.text, b"Non UTF8 text".to_vec());
    text.insert_text("hello");
    assert_eq!(text.text, b"hello".to_vec());
}

#[test]
fn interior_nul_text_yields_the_placeholder() {
    let mut display = display_init();
    let root = display.get_root_widget();
    let font = LvglMkFont::std_14();
    let mut label = LvglLabel::new(&mut display, &root, "l", &font, 0, 0);
    label.set_value("before\0after");
    assert_eq!(label.text, b"Non UTF8 label".to_vec());
}

#[test]
fn handler_registration_is_idempotent() {
    let mut display = display_init();
    let root = display.get_root_widget();
    let mut switch = LvglSwitch::new(&mut display, &root, "s", 0, 0);
    switch.set_callback(1);
    switch.set_callback(2);
    assert_eq!(switch.get_callback(), Some(1));

    // Through the union as well: the first handler stays.
    let mut widget = switch.finalize();
    widget.set_callback(3);
    let notice = lvgl_events_cb(&widget, 28).expect("value-changed must be forwarded");
    assert_eq!(notice.ctrlbox, 1);
}

#[test]
fn event_decoding_is_total() {
    let mapped = [
        (1, LvglEvent::PRESSED),
        (2, LvglEvent::PRESSING),
        (3, LvglEvent::PRESS_LOST),
        (4, LvglEvent::SHORT_CLICKED),
        (5, LvglEvent::LONG_PRESSED),
        (6, LvglEvent::LONG_PRESSED_REPEAT),
        (7, LvglEvent::CLICKED),
        (8, LvglEvent::RELEASED),
        (14, LvglEvent::FOCUSED),
        (15, LvglEvent::DEFOCUSED),
        (16, LvglEvent::LEAVE),
        (28, LvglEvent::VALUE_CHANGED),
    ];
    for (code, event) in mapped {
        assert_eq!(LvglEvent::from(code), event);
    }
    for code in [0u32, 9, 10, 11, 12, 13, 17, 20, 27, 29, 100, 1000, u32::MAX] {
        assert_eq!(LvglEvent::from(code), LvglEvent::UNKNOWN);
    }
}

#[test]
fn switch_toggle_reads_back_checked() {
    let mut display = display_init();
    let root = display.get_root_widget();
    let mut switch = LvglSwitch::new(&mut display, &root, "s", 0, 0);
    switch.set_value(false);
    assert!(!switch.get_states().check(LvglState::CHECKED));
    switch.set_value(true);
    assert!(switch.get_states().check(LvglState::CHECKED));
}

#[test]
fn switch_lock_reads_back_disabled() {
    let mut display = display_init();
    let root = display.get_root_widget();
    let mut switch = LvglSwitch::new(&mut display, &root, "s", 0, 0);
    switch.set_lock(true);
    assert!(switch.get_states().check(LvglState::DISABLED));
    switch.set_lock(false);
    assert!(!switch.get_states().check(LvglState::DISABLED));
}

#[test]
fn state_snapshot_reads_single_bits() {
    let snapshot = LvglStates { handle: 0x0081 };
    assert!(snapshot.check(LvglState::CHECKED));
    assert!(snapshot.check(LvglState::DISABLED));
    assert!(!snapshot.check(LvglState::FOCUSED));
    // DEFAULT and UNKNOWN name no bit at all, so they never read as set.
    assert!(!snapshot.check(LvglState::DEFAULT));
    assert!(!snapshot.check(LvglState::UNKNOWN));
    assert_eq!(LvglState::USER_1.get_raw(), 0x1000);
}

#[test]
fn get_action_names_the_toggle_actions() {
    let mut display = display_init();
    let root = display.get_root_widget();
    let switch = LvglSwitch::new(&mut display, &root, "s", 0, 0);
    assert_eq!(switch.get_action(), "['ON','OFF']");
    let led = LvglLed::new(&mut display, &root, "led", 0, 0);
    assert_eq!(led.get_action(), "['ON','OFF']");
    let pixmap = LvglPixmap::new(
        &mut display,
        &root,
        "p",
        &lvgl_ui::assets::LvglPixmap::OK,
        0,
        0,
    );
    assert_eq!(pixmap.get_action(), "['ON','OFF']");
    let button = LvglPixButton::new(&mut display, &root, "pb", 0, 0);
    assert_eq!(button.get_action(), "['ON','OFF']");
}

#[test]
fn default_action_is_empty() {
    let mut display = display_init();
    let root = display.get_root_widget();
    let font = LvglMkFont::std_14();
    let label = LvglLabel::new(&mut display, &root, "l", &font, 0, 0);
    assert_eq!(LvglCommon::get_action(&label), "[]");
    let bar = LvglBar::new(&mut display, &root, "bar", 0, 10, 0, 0);
    assert_eq!(LvglCommon::get_action(&bar), "[]");
    // The toggling kinds answer for themselves instead.
    let switch = LvglSwitch::new(&mut display, &root, "s", 0, 0);
    assert_eq!(switch.get_action(), "['ON','OFF']");
}

#[test]
fn image_descriptor_shows_on_icon_widgets() {
    let mut display = display_init();
    let root = display.get_root_widget();
    let picture = lvgl_ui::generic::LvglImgDsc {
        width: 2,
        height: 1,
        data: vec![0x12, 0x34, 0x56, 0x78],
    };
    let pixmap = LvglPixmap::new_dsc(&mut display, &root, "p", picture, 0, 0);
    assert_ne!(pixmap.get_handle(), 0);
    match &pixmap.pixmap {
        PixmapSource::Image(image) => {
            assert_eq!((image.width, image.height), (2, 1));
            assert_eq!(image.data, vec![0x12, 0x34, 0x56, 0x78]);
        }
        _ => panic!("expected an image descriptor"),
    }

    let mut button = LvglPixButton::new(&mut display, &root, "pb", 0, 0);
    button.set_value(&lvgl_ui::assets::LvglPixmap::OK);
    let other = lvgl_ui::generic::LvglImgDsc { width: 1, height: 1, data: vec![0xab] };
    button.set_value_dsc(other);
    match &button.pixmap {
        PixmapSource::Image(image) => assert_eq!(image.data, vec![0xab]),
        _ => panic!("expected an image descriptor"),
    }
}

#[test]
fn widget_accessors_reach_the_base_record() {
    let mut display = display_init();
    let root = display.get_root_widget();
    assert_eq!(root.get_uid(), "Root");
    assert_ne!(root.get_handle(), 0);
    let font = LvglMkFont::std_14();
    let mut label = LvglLabel::new(&mut display, &root, "l", &font, 4, 5);
    label.set_info("note");
    assert_eq!(label.get_info(), "note");
    assert_eq!(label.get_uid(), "l");
    let widget = label.finalize();
    assert_eq!(widget.get_uid(), "l");
    assert_eq!(widget.as_any().get_uid(), "l");
}

#[test]
fn image_source_carries_the_scheme_marker() {
    let mut display = display_init();
    let root = display.get_root_widget();
    let mut image = LvglImage::new(&mut display, &root, "i", "pix/tux.png", 0, 0);
    assert_eq!(image.src, b"L:pix/tux.png".to_vec());
    image.set_value("other.png");
    assert_eq!(image.src, b"L:other.png".to_vec());
}

#[test]
fn arc_value_truncates_to_sixteen_bits() {
    let mut display = display_init();
    let root = display.get_root_widget();
    let mut arc = LvglArc::new(&mut display, &root, "arc", 0, 360, 0, 0);
    arc.set_value(70000);
    assert_eq!(arc.value, 70000i32 as i16);
    arc.set_value(-5);
    assert_eq!(arc.value, -5);
}

#[test]
fn display_bootstrap_sizes_the_draw_buffer() {
    let display = lvgl_ui::display::LvglHandle::new(640, 480, 4);
    assert_eq!(display.buffer_sz, 640 * 480 / 4);
    assert_eq!(display.next_obj, 2);
    let root = display.get_root_widget();
    assert_eq!(root.get_handle(), lvgl_ui::display::ROOT_HANDLE);
}
