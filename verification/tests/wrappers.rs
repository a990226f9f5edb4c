use gtk_compat::wrappers::run_main_loop;
use gtk_compat::{
    Application, BoxWidget, Button, Error, FfiCall, Label, Orientation, SymbolId, Symbols, Window,
};

fn table(found: &[SymbolId]) -> Symbols {
    Symbols::load(&found.to_vec()).unwrap()
}

fn gtk4() -> Symbols {
    table(&[
        SymbolId::GMainLoopNew,
        SymbolId::GMainLoopRun,
        SymbolId::GObjectRef,
        SymbolId::GObjectUnref,
        SymbolId::GObjectRefSink,
        SymbolId::GSignalConnectData,
        SymbolId::GSignalConnect,
        SymbolId::GSignalEmitByName,
        SymbolId::GtkWindowNew,
        SymbolId::GtkWindowSetTitle,
        SymbolId::GtkButtonNewWithLabel,
        SymbolId::GtkLabelNew,
        SymbolId::GtkLabelSetText,
        SymbolId::GtkLabelGetText,
        SymbolId::GtkBoxNew,
        SymbolId::GtkBoxAppend,
        SymbolId::GtkWindowSetChild,
        SymbolId::GtkWindowPresent,
    ])
}

fn gtk3() -> Symbols {
    table(&[
        SymbolId::GObjectRef,
        SymbolId::GObjectUnref,
        SymbolId::GSignalConnect,
        SymbolId::GtkWindowNew,
        SymbolId::GtkBoxNew,
        SymbolId::GtkBoxPackStart,
        SymbolId::GtkContainerAdd,
        SymbolId::GtkWidgetShowAll,
        SymbolId::GtkWindowPresent,
    ])
}

fn missing(name: &str) -> Error {
    Error::MissingSymbol(name.to_string())
}

#[test]
fn orientation_values() {
    assert_eq!(Orientation::Horizontal.value(), 0);
    assert_eq!(Orientation::Vertical.value(), 1);
}

#[test]
fn box_new_and_adopt() {
    assert_eq!(
        BoxWidget::new(gtk4(), Orientation::Horizontal, 6),
        Ok(FfiCall::GtkBoxNew { orientation: 0, spacing: 6 })
    );
    assert_eq!(
        BoxWidget::new(gtk4(), Orientation::Vertical, -1),
        Ok(FfiCall::GtkBoxNew { orientation: 1, spacing: -1 })
    );
    assert_eq!(BoxWidget::new(Symbols::empty(), Orientation::Vertical, 0), Err(missing("gtk_box_new")));
    let (b, sink) = BoxWidget::adopt(gtk4(), 0x1000);
    assert_eq!(b.handle(), 0x1000);
    assert_eq!(sink, Some(FfiCall::GObjectRefSink { object: 0x1000 }));
    let (_, sink3) = BoxWidget::adopt(gtk3(), 0x1000);
    assert_eq!(sink3, Some(FfiCall::GObjectRef { object: 0x1000 }));
    let (_, none) = BoxWidget::adopt(Symbols::empty(), 0x1000);
    assert_eq!(none, None);
}

#[test]
fn box_append_prefers_gtk4() {
    let (b4, _) = BoxWidget::adopt(gtk4(), 10);
    assert_eq!(b4.append(20), Some(FfiCall::GtkBoxAppend { container: 10, child: 20 }));
    let (b3, _) = BoxWidget::adopt(gtk3(), 10);
    assert_eq!(
        b3.append(20),
        Some(FfiCall::GtkBoxPackStart { container: 10, child: 20, expand: 1, fill: 1, padding: 0 })
    );
    let (b0, _) = BoxWidget::adopt(Symbols::empty(), 10);
    assert_eq!(b0.append(20), None);
    let both = table(&[SymbolId::GtkBoxAppend, SymbolId::GtkBoxPackStart]);
    let (bb, _) = BoxWidget::adopt(both, 10);
    assert_eq!(bb.append(20), Some(FfiCall::GtkBoxAppend { container: 10, child: 20 }));
}

#[test]
fn window_operations() {
    assert_eq!(Window::new(gtk4()), Ok(FfiCall::GtkWindowNew { window_type: 0 }));
    assert_eq!(Window::new(Symbols::empty()), Err(missing("gtk_window_new")));
    let (w, _) = Window::adopt(gtk4(), 7);
    assert_eq!(
        w.set_title("Rust gtk-compat demo"),
        Some(FfiCall::GtkWindowSetTitle { window: 7, title: "Rust gtk-compat demo".to_string() })
    );
    assert_eq!(w.set_child(8), Some(FfiCall::GtkWindowSetChild { window: 7, child: 8 }));
    assert_eq!(w.present(), vec![FfiCall::GtkWindowPresent { window: 7 }]);
    let (w3, _) = Window::adopt(gtk3(), 7);
    assert_eq!(w3.set_title("x"), None);
    assert_eq!(w3.set_child(8), Some(FfiCall::GtkContainerAdd { container: 7, widget: 8 }));
    assert_eq!(
        w3.present(),
        vec![FfiCall::GtkWidgetShowAll { widget: 7 }, FfiCall::GtkWindowPresent { window: 7 }]
    );
    let (w0, _) = Window::adopt(Symbols::empty(), 7);
    assert_eq!(w0.set_child(8), None);
    assert_eq!(w0.present(), vec![]);
    assert_eq!(w0.release(), None);
    assert_eq!(w.release(), Some(FfiCall::GObjectUnref { object: 7 }));
}

#[test]
fn button_operations() {
    assert_eq!(
        Button::with_label(gtk4(), "Click me"),
        Ok(FfiCall::GtkButtonNewWithLabel { label: "Click me".to_string() })
    );
    assert_eq!(Button::with_label(gtk3(), "Click me"), Err(missing("gtk_button_new_with_label")));
    let (b, _) = Button::adopt(gtk4(), 3);
    assert_eq!(
        b.connect_clicked(),
        Ok(FfiCall::GSignalConnectData {
            instance: 3,
            signal: "clicked".to_string(),
            connect_flags: 0,
            destroy_notify: true
        })
    );
    assert_eq!(
        b.emit_clicked(),
        Ok(FfiCall::GSignalEmitByName { instance: 3, signal: "clicked".to_string() })
    );
    let (b3, _) = Button::adopt(gtk3(), 3);
    assert_eq!(
        b3.connect_clicked(),
        Ok(FfiCall::GSignalConnect { instance: 3, signal: "clicked".to_string() })
    );
    assert_eq!(b3.emit_clicked(), Err(missing("g_signal_emit_by_name")));
    let (b0, _) = Button::adopt(Symbols::empty(), 3);
    assert_eq!(b0.connect_clicked(), Err(Error::Other("no g_signal_connect available".to_string())));
}

#[test]
fn signals_connect_clicked() {
    assert_eq!(
        gtk_compat::signals::connect_clicked(&gtk3(), 9),
        Ok(FfiCall::GSignalConnect { instance: 9, signal: "clicked".to_string() })
    );
    assert_eq!(
        gtk_compat::signals::connect_clicked(&Symbols::empty(), 9),
        Err("no g_signal_connect available".to_string())
    );
}

#[test]
fn label_operations() {
    assert_eq!(
        Label::new(gtk4(), "Count: 0"),
        Ok(FfiCall::GtkLabelNew { text: "Count: 0".to_string() })
    );
    assert_eq!(Label::new(gtk3(), "Count: 0"), Err(missing("gtk_label_new")));
    let (l, sink) = Label::adopt(gtk4(), 5);
    assert_eq!(sink, Some(FfiCall::GObjectRefSink { object: 5 }));
    assert_eq!(
        l.set_text("Count: 1"),
        Some(FfiCall::GtkLabelSetText { label: 5, text: "Count: 1".to_string() })
    );
    assert_eq!(l.get_text(), Some(FfiCall::GtkLabelGetText { label: 5 }));
    let (l3, _) = Label::adopt(gtk3(), 5);
    assert_eq!(l3.set_text("Count: 1"), None);
    assert_eq!(l3.get_text(), None);
}

#[test]
fn label_decode_text() {
    assert_eq!(Label::decode_text(None), None);
    assert_eq!(Label::decode_text(Some(b"Count: 1")), Some("Count: 1".to_string()));
    assert_eq!(Label::decode_text(Some(b"")), Some(String::new()));
    assert_eq!(
        Label::decode_text(Some("h\u{e9}llo".as_bytes())),
        Some("h\u{e9}llo".to_string())
    );
    assert_eq!(Label::decode_text(Some(&[0x61, 0xff, 0x62])), Some("a\u{fffd}b".to_string()));
}

#[test]
fn label_clone_handle() {
    let (l, _) = Label::adopt(gtk4(), 5);
    let (copy, call) = l.clone_handle();
    assert_eq!(copy.handle(), 5);
    assert_eq!(call, Some(FfiCall::GObjectRef { object: 5 }));
    let (l0, _) = Label::adopt(Symbols::empty(), 5);
    let (_, none) = l0.clone_handle();
    assert_eq!(none, None);
}

#[test]
fn application_run() {
    let app = Application::new(gtk4(), Some("org.example.GtkCompatDemo")).unwrap();
    assert_eq!(app.run(), Ok(FfiCall::GMainLoopNew { context: 0, is_running: 0 }));
    assert_eq!(run_main_loop(42), FfiCall::GMainLoopRun { main_loop: 42 });
    let app = Application::new(Symbols::empty(), None).unwrap();
    assert_eq!(app.run(), Err(missing("g_main_loop_new")));
    let only_new = table(&[SymbolId::GMainLoopNew]);
    let app = Application::new(only_new, None).unwrap();
    assert_eq!(app.run(), Err(missing("g_main_loop_run")));
}

#[test]
fn c_compatible_text() {
    assert!(gtk_compat::wrappers::is_c_compatible(""));
    assert!(gtk_compat::wrappers::is_c_compatible("Count: 0"));
    assert!(gtk_compat::wrappers::is_c_compatible("h\u{e9}llo"));
    assert!(!gtk_compat::wrappers::is_c_compatible("a\0b"));
    assert!(!gtk_compat::wrappers::is_c_compatible("\0"));
}
