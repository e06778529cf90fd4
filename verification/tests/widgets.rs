//! The demo scenes, one per widget kind: each builds its scene and checks
//! the widgets that come back.

use lvgl_ui::demo::display_init;
use lvgl_ui::demo::draw_arc;
use lvgl_ui::demo::draw_area;
use lvgl_ui::demo::draw_bar;
use lvgl_ui::demo::draw_button;
use lvgl_ui::demo::draw_date;
use lvgl_ui::demo::draw_icon;
use lvgl_ui::demo::draw_label;
use lvgl_ui::demo::draw_led;
use lvgl_ui::demo::draw_line;
use lvgl_ui::demo::draw_meter;
use lvgl_ui::demo::draw_qrcode;
use lvgl_ui::demo::draw_switch;
use lvgl_ui::demo::draw_text;
use lvgl_ui::demo::draw_tux;
use lvgl_ui::core_widgets::PixmapSource;
use lvgl_ui::events::LvglState;
use lvgl_ui::generic::LvglWidget;
use lvgl_ui::time::format_time;
use lvgl_ui::widget::LvglMethod;

#[test]
fn test_label() {
    let mut display = display_init();
    let root = display.get_root_widget();
    let widgets = draw_label(&mut display, &root, 100, 100);
    assert_eq!(widgets.len(), 1);
    match &widgets[0] {
        LvglWidget::Label(label) => {
            assert_eq!(label.base.uid, "Label-1");
            assert_eq!(label.text, b"Demo Label widget".to_vec());
            assert_ne!(label.base.handle, 0);
            assert_eq!(label.base.width, Some(300));
            assert_eq!(label.base.height, Some(100));
            assert_eq!(label.base.style.border_width, 3);
        }
        _ => panic!("expected a label"),
    }
}

#[test]
fn test_date() {
    let mut display = display_init();
    let root = display.get_root_widget();
    let date = String::from_utf8(format_time(0, b"%D %H:%M").unwrap()).unwrap();
    assert_eq!(date, "01/01/70 00:00");
    let widgets = draw_date(&mut display, &root, 100, 100, date.as_str());
    assert_eq!(widgets.len(), 1);
    match &widgets[0] {
        LvglWidget::Label(label) => {
            assert_eq!(label.base.uid, "Local-Time");
            assert_eq!(label.text, b"01/01/70 00:00".to_vec());
        }
        _ => panic!("expected a label"),
    }
}

#[test]
fn test_icon() {
    let mut display = display_init();
    let root = display.get_root_widget();
    let widgets = draw_icon(&mut display, &root, 900, 10);
    assert_eq!(widgets.len(), 4);
    match (&widgets[0], &widgets[1]) {
        (LvglWidget::Area(area), LvglWidget::Pixmap(wifi)) => {
            assert_eq!(area.base.uid, "Icon-Area");
            assert_eq!(area.base.width, Some(80));
            assert_eq!(wifi.base.uid, "Icon-wifi");
            match &wifi.pixmap {
                PixmapSource::Glyph(glyph) => assert_eq!(glyph, &vec![0xef, 0x87, 0xab, 0]),
                _ => panic!("expected a glyph"),
            }
            assert_eq!(wifi.base.parent, area.base.handle);
            assert_eq!(wifi.base.info, "Demo Wifi Icon");
        }
        _ => panic!("expected an area and an icon"),
    }
}

#[test]
fn test_led() {
    let mut display = display_init();
    let root = display.get_root_widget();
    let widgets = draw_led(&mut display, &root, 100, 100);
    assert_eq!(widgets.len(), 3);
    match (&widgets[1], &widgets[2]) {
        (LvglWidget::Led(red), LvglWidget::Led(green)) => {
            assert_eq!(red.base.uid, "Led-Red");
            assert!(red.on);
            assert_eq!(green.base.uid, "Led-Green");
            assert!(green.on);
            assert_eq!(green.brightness, 255);
        }
        _ => panic!("expected two LEDs"),
    }
}

#[test]
fn test_text() {
    let mut display = display_init();
    let root = display.get_root_widget();
    let widgets = draw_text(&mut display, &root, 100, 100);
    assert_eq!(widgets.len(), 1);
    match &widgets[0] {
        LvglWidget::TextArea(text) => {
            assert_eq!(text.base.uid, "Text-Area");
            assert_eq!(text.text, b"display message zone".to_vec());
            assert_eq!(text.base.width, Some(600));
        }
        _ => panic!("expected a text area"),
    }
}

#[test]
fn test_switch() {
    let mut display = display_init();
    let root = display.get_root_widget();
    let widgets = draw_switch(&mut display, &root, 100, 100, 1);
    assert_eq!(widgets.len(), 3);
    match (&widgets[0], &widgets[1], &widgets[2]) {
        (LvglWidget::Area(area), LvglWidget::Switch(unlocked), LvglWidget::Switch(locked)) => {
            assert_eq!(area.base.uid, "Switch-Area");
            assert_eq!((area.base.width, area.base.height), (Some(150), Some(50)));
            assert_eq!((area.base.x_ofs, area.base.y_ofs), (100, 100));
            assert_eq!(unlocked.base.parent, area.base.handle);
            assert_eq!(locked.base.parent, area.base.handle);
            assert_eq!(unlocked.base.uid, "Switch-1");
            assert!(!unlocked.get_states().check(LvglState::CHECKED));
            assert!(!unlocked.get_states().check(LvglState::DISABLED));
            assert_eq!(locked.base.uid, "Switch-2");
            assert!(locked.get_states().check(LvglState::CHECKED));
            assert!(locked.get_states().check(LvglState::DISABLED));
        }
        _ => panic!("expected an area and two switches"),
    }
}

#[test]
fn test_line() {
    let mut display = display_init();
    let root = display.get_root_widget();
    let widgets = draw_line(&mut display, &root, 100, 100);
    assert_eq!(widgets.len(), 1);
    match &widgets[0] {
        LvglWidget::Line(line) => {
            assert_eq!(line.points.len(), 5);
            assert_eq!(line.points[0].x, 5);
            assert_eq!(line.points[4].x, 240);
            assert_eq!(line.base.style.line_width, 8);
            assert!(line.base.style.line_rounded);
        }
        _ => panic!("expected a line"),
    }
}

#[test]
fn test_button() {
    let mut display = display_init();
    let root = display.get_root_widget();
    let widgets = draw_button(&mut display, &root, 100, 100, 1);
    assert_eq!(widgets.len(), 3);
    match (&widgets[0], &widgets[1], &widgets[2]) {
        (LvglWidget::Button(first), LvglWidget::Button(second), LvglWidget::PixButton(icon)) => {
            assert_eq!(first.base.uid, "Button-A");
            assert_eq!(first.text, b"Test-1".to_vec());
            assert_eq!(second.base.uid, "Button-B");
            assert_eq!(second.base.x_ofs, 150);
            assert_eq!(second.base.y_ofs, 210);
            assert_eq!(icon.base.uid, "Button-Img");
            assert_eq!(icon.base.x_ofs, 150);
            assert_eq!(icon.base.y_ofs, 40);
            match &icon.pixmap {
                PixmapSource::Glyph(glyph) => assert_eq!(glyph, &vec![0xef, 0x80, 0x95, 0]),
                _ => panic!("expected a glyph"),
            }
        }
        _ => panic!("expected two buttons and an icon button"),
    }
}

#[test]
fn test_arc() {
    let mut display = display_init();
    let root = display.get_root_widget();
    let widgets = draw_arc(&mut display, &root, 100, 100);
    assert_eq!(widgets.len(), 1);
    match &widgets[0] {
        LvglWidget::Arc(arc) => {
            assert_eq!(arc.bg_start, 0);
            assert_eq!(arc.bg_end, 300);
            assert_eq!(arc.value, 180);
        }
        _ => panic!("expected an arc"),
    }
}

#[test]
fn test_bar() {
    let mut display = display_init();
    let root = display.get_root_widget();
    let widgets = draw_bar(&mut display, &root, 100, 100);
    assert_eq!(widgets.len(), 2);
    match (&widgets[0], &widgets[1]) {
        (LvglWidget::Bar(vertical), LvglWidget::Bar(horizontal)) => {
            assert_eq!((vertical.min, vertical.max, vertical.value), (10, 90, 60));
            assert!(vertical.base.style.bg_grad_vertical);
            assert_eq!((horizontal.min, horizontal.max, horizontal.value), (10, 90, 40));
            assert!(!horizontal.base.style.bg_grad_vertical);
        }
        _ => panic!("expected two bars"),
    }
}

#[test]
fn test_tux() {
    let mut display = display_init();
    let root = display.get_root_widget();
    let widgets = draw_tux(&mut display, &root, 100, 100);
    assert_eq!(widgets.len(), 1);
    match &widgets[0] {
        LvglWidget::Image(image) => {
            assert_eq!(image.base.uid, "tux-evse");
            assert_eq!(image.src, b"L:assets/tux-evsex250.png".to_vec());
        }
        _ => panic!("expected an image"),
    }
}

#[test]
fn test_qrcode() {
    let mut display = display_init();
    let root = display.get_root_widget();
    let widgets = draw_qrcode(&mut display, &root, 100, 100);
    assert_eq!(widgets.len(), 1);
    match &widgets[0] {
        LvglWidget::Qrcode(qrcode) => {
            assert_eq!(qrcode.base.uid, "qr-code");
            assert_eq!(qrcode.data, b"https://github.com/tux-evse".to_vec());
            assert_eq!(qrcode.size, 150);
        }
        _ => panic!("expected a QR code"),
    }
}

#[test]
fn test_meter() {
    let mut display = display_init();
    let root = display.get_root_widget();
    let widgets = draw_meter(&mut display, &root, 100, 100);
    assert_eq!(widgets.len(), 1);
    match &widgets[0] {
        LvglWidget::Meter(meter) => {
            assert_eq!(meter.base.uid, "Meter");
            assert_eq!(meter.value, 50);
            let ticks = meter.ticks.as_ref().expect("a tick scale was applied");
            assert_eq!(ticks.tick_count, 41);
            // Major ticks are one and a half times the minor dimensions.
            assert_eq!(ticks.major_width, 4);
            assert_eq!(ticks.major_length, 15);
            assert_eq!(meter.zones.len(), 2);
            assert_eq!((meter.zones[0].start, meter.zones[0].end), (0, 20));
            assert_eq!((meter.zones[1].start, meter.zones[1].end), (80, 100));
        }
        _ => panic!("expected a meter"),
    }
}

#[test]
fn test_area() {
    let mut display = display_init();
    let root = display.get_root_widget();
    let widgets = draw_area(&mut display, &root, 100, 100);
    assert_eq!(widgets.len(), 3);
    match (&widgets[0], &widgets[1], &widgets[2]) {
        (LvglWidget::Area(area), LvglWidget::Bar(bar), LvglWidget::Arc(arc)) => {
            assert_eq!(area.base.uid, "Area");
            assert_eq!(bar.base.parent, area.base.handle);
            assert_eq!(arc.base.parent, area.base.handle);
        }
        _ => panic!("expected an area, a bar and an arc"),
    }
}

#[test]
fn test_pannel() {
    let mut display = display_init();
    display.set_theme(
        lvgl_ui::assets::LvglColor::LIGHT_BLUE(),
        lvgl_ui::assets::LvglColor::BLUE_GREY(),
        false,
        &lvgl_ui::assets::LvglMkFont::std_14(),
    );
    assert!(display.theme.is_some());
    let root = display.get_root_widget();
    let date = String::from_utf8(format_time(0, b"%D %H:%M").unwrap()).unwrap();
    let mut count = 0;
    count += draw_icon(&mut display, &root, 875, 5).len();
    count += draw_led(&mut display, &root, 805, 5).len();
    count += draw_date(&mut display, &root, 540, 12, date.as_str()).len();
    count += draw_switch(&mut display, &root, 805, 50, 1).len();
    count += draw_line(&mut display, &root, 400, 70).len();
    count += draw_button(&mut display, &root, 450, 200, 2).len();
    count += draw_arc(&mut display, &root, 100, 30).len();
    count += draw_bar(&mut display, &root, 100, 250).len();
    count += draw_meter(&mut display, &root, 800, 350).len();
    count += draw_label(&mut display, &root, 240, 400).len();
    count += draw_tux(&mut display, &root, 765, 100).len();
    count += draw_qrcode(&mut display, &root, 600, 370).len();
    count += draw_text(&mut display, &root, 50, 550).len();
    assert_eq!(count, 23);
    // Every widget drew from the same registry: the handle counter advanced
    // once per widget, starting above the root handle.
    assert_eq!(display.next_obj, 2 + 23);
}
