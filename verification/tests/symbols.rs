use gtk_compat::symbols::first_missing_library;
use gtk_compat::{all_symbols, FfiCall, LibraryKind, SymbolId, Symbols};

fn gtk4_found() -> Vec<SymbolId> {
    vec![
        SymbolId::GMainLoopNew,
        SymbolId::GMainLoopRun,
        SymbolId::GObjectRefSink,
        SymbolId::GObjectUnref,
        SymbolId::GtkWindowNew,
        SymbolId::GtkBoxAppend,
    ]
}

#[test]
fn load_marks_exactly_the_found_symbols() {
    let t = Symbols::load(&gtk4_found()).unwrap();
    assert!(t.g_main_loop_new);
    assert!(t.g_main_loop_run);
    assert!(t.g_object_ref_sink);
    assert!(t.g_object_unref);
    assert!(t.gtk_window_new);
    assert!(t.gtk_box_append);
    assert!(!t.g_object_ref);
    assert!(!t.gtk_box_pack_start);
    assert!(!t.gtk_container_add);
    assert!(!t.g_signal_connect_data);
    for s in all_symbols() {
        assert_eq!(t.has(s), gtk4_found().contains(&s));
    }
}

#[test]
fn load_of_nothing_is_empty() {
    let t = Symbols::load(&Vec::new()).unwrap();
    assert_eq!(t, Symbols::empty());
    for s in all_symbols() {
        assert!(!t.has(s));
    }
}

#[test]
fn load_tolerates_repeats() {
    let t = Symbols::load(&vec![SymbolId::GtkInit, SymbolId::GtkInit]).unwrap();
    assert!(t.gtk_init);
    assert!(!t.gtk_window_new);
}

#[test]
fn lookup_order_lists_each_symbol_once() {
    let all = all_symbols();
    assert_eq!(all.len(), gtk_compat::symbols::SYMBOL_COUNT);
    for (i, s) in all.iter().enumerate() {
        for t in all.iter().skip(i + 1) {
            assert_ne!(s, t);
        }
    }
    assert_eq!(all[0], SymbolId::GMainLoopNew);
    assert_eq!(all[22], SymbolId::GSignalEmitByName);
}

#[test]
fn names_and_libraries() {
    assert_eq!(SymbolId::GMainLoopNew.c_name(), "g_main_loop_new");
    assert_eq!(SymbolId::GMainLoopNew.library(), LibraryKind::Glib);
    assert_eq!(SymbolId::GObjectRefSink.c_name(), "g_object_ref_sink");
    assert_eq!(SymbolId::GObjectRefSink.library(), LibraryKind::Gobject);
    assert_eq!(SymbolId::GSignalEmitByName.c_name(), "g_signal_emit_by_name");
    assert_eq!(SymbolId::GSignalEmitByName.library(), LibraryKind::Gobject);
    assert_eq!(SymbolId::GtkButtonNewWithLabel.c_name(), "gtk_button_new_with_label");
    assert_eq!(SymbolId::GtkButtonNewWithLabel.library(), LibraryKind::Gtk);
    assert_eq!(SymbolId::GtkInit.c_name(), "gtk_init");
    assert_eq!(SymbolId::GtkInit.library(), LibraryKind::Gtk);
}

#[test]
fn library_follows_name_for_every_symbol() {
    for s in all_symbols() {
        let name = s.c_name();
        let expected = if name.starts_with("gtk_") {
            LibraryKind::Gtk
        } else if name.starts_with("g_main_loop_") {
            LibraryKind::Glib
        } else {
            assert!(name.starts_with("g_"));
            LibraryKind::Gobject
        };
        assert_eq!(s.library(), expected);
    }
}

#[test]
fn library_keys() {
    assert_eq!(LibraryKind::Gtk.key(), "libgtk");
    assert_eq!(LibraryKind::Glib.key(), "libglib");
    assert_eq!(LibraryKind::Gobject.key(), "libgobject");
}

#[test]
fn index_is_position_in_lookup_order() {
    let all = all_symbols();
    for s in all.iter() {
        assert_eq!(all[s.index()], *s);
    }
    assert_eq!(SymbolId::GtkInit.index(), 21);
}

#[test]
fn call_symbols() {
    assert_eq!(FfiCall::GtkBoxNew { orientation: 0, spacing: 0 }.symbol(), SymbolId::GtkBoxNew);
    assert_eq!(FfiCall::GObjectUnref { object: 1 }.symbol(), SymbolId::GObjectUnref);
    assert_eq!(
        FfiCall::GSignalConnect { instance: 1, signal: "clicked".to_string() }.symbol(),
        SymbolId::GSignalConnect
    );
    assert_eq!(FfiCall::GMainLoopRun { main_loop: 1 }.symbol(), SymbolId::GMainLoopRun);
}

#[test]
fn first_missing_library_in_order() {
    let keys = |ks: &[&str]| ks.iter().map(|k| k.to_string()).collect::<Vec<String>>();
    assert_eq!(first_missing_library(&keys(&["libgtk", "libglib", "libgobject"])), None);
    assert_eq!(first_missing_library(&keys(&["libgobject", "libglib", "libgtk", "extra"])), None);
    assert_eq!(first_missing_library(&keys(&[])), Some(LibraryKind::Gtk));
    assert_eq!(first_missing_library(&keys(&["libgobject"])), Some(LibraryKind::Gtk));
    assert_eq!(first_missing_library(&keys(&["libgtk", "libgobject"])), Some(LibraryKind::Glib));
    assert_eq!(first_missing_library(&keys(&["libgtk", "libglib"])), Some(LibraryKind::Gobject));
}
