//! What each operation does, stated directly over its inputs: which call it
//! makes on which object with which arguments, for every table of found
//! symbols. Each law pins the spec function that the operation's contract
//! equates its result with.
use vstd::prelude::*;

use crate::calls::{CallSpec, FfiCall};
use crate::error::Error;
use crate::signals::spec_connect_clicked;
use crate::symbols::{is_registered, spec_first_missing_library, LibraryKind, SymbolId, Symbols};
use crate::wrappers::{
    constructed, is_c_text, spec_add_ref, spec_append, spec_box_new_call, spec_button_new_call,
    spec_emit_clicked, spec_get_text, spec_label_new_call, spec_present, spec_release, spec_run,
    spec_set_child, spec_set_text, spec_set_title, spec_sink, spec_window_new_call,
    Orientation, WidgetState,
};

verus! {

/// Connecting "clicked" uses `g_signal_connect_data` (flags 0, with the
/// destroy notify) whenever it was found, whether or not `g_signal_connect`
/// was; `g_signal_connect` only when `g_signal_connect_data` is missing; and
/// fails, with "no g_signal_connect available", only when neither was found.
pub proof fn law_connect_clicked(symbols: Symbols, instance: usize)
    ensures
        symbols.g_signal_connect_data ==> spec_connect_clicked(symbols, instance) == Ok::<
            CallSpec,
            Seq<char>,
        >(
            CallSpec::GSignalConnectData {
                instance,
                signal: "clicked"@,
                connect_flags: 0,
                destroy_notify: true,
            },
        ),
        (!symbols.g_signal_connect_data && symbols.g_signal_connect) ==> spec_connect_clicked(
            symbols,
            instance,
        ) == Ok::<CallSpec, Seq<char>>(CallSpec::GSignalConnect { instance, signal: "clicked"@ }),
        (!symbols.g_signal_connect_data && !symbols.g_signal_connect) ==> spec_connect_clicked(
            symbols,
            instance,
        ) == Err::<CallSpec, Seq<char>>("no g_signal_connect available"@),
        spec_connect_clicked(symbols, instance) is Err <==> (!symbols.g_signal_connect_data
            && !symbols.g_signal_connect),
{
}

/// Each entry point is looked up under exactly the C name of the function it
/// stands for.
pub proof fn law_symbol_names()
    ensures
        SymbolId::GMainLoopNew.spec_c_name() == "g_main_loop_new"@,
        SymbolId::GMainLoopRun.spec_c_name() == "g_main_loop_run"@,
        SymbolId::GMainLoopQuit.spec_c_name() == "g_main_loop_quit"@,
        SymbolId::GObjectRef.spec_c_name() == "g_object_ref"@,
        SymbolId::GObjectUnref.spec_c_name() == "g_object_unref"@,
        SymbolId::GObjectRefSink.spec_c_name() == "g_object_ref_sink"@,
        SymbolId::GSignalConnectData.spec_c_name() == "g_signal_connect_data"@,
        SymbolId::GSignalConnect.spec_c_name() == "g_signal_connect"@,
        SymbolId::GtkWindowNew.spec_c_name() == "gtk_window_new"@,
        SymbolId::GtkWindowSetTitle.spec_c_name() == "gtk_window_set_title"@,
        SymbolId::GtkButtonNewWithLabel.spec_c_name() == "gtk_button_new_with_label"@,
        SymbolId::GtkLabelNew.spec_c_name() == "gtk_label_new"@,
        SymbolId::GtkLabelSetText.spec_c_name() == "gtk_label_set_text"@,
        SymbolId::GtkLabelGetText.spec_c_name() == "gtk_label_get_text"@,
        SymbolId::GtkBoxNew.spec_c_name() == "gtk_box_new"@,
        SymbolId::GtkBoxAppend.spec_c_name() == "gtk_box_append"@,
        SymbolId::GtkBoxPackStart.spec_c_name() == "gtk_box_pack_start"@,
        SymbolId::GtkContainerAdd.spec_c_name() == "gtk_container_add"@,
        SymbolId::GtkWindowSetChild.spec_c_name() == "gtk_window_set_child"@,
        SymbolId::GtkWidgetShowAll.spec_c_name() == "gtk_widget_show_all"@,
        SymbolId::GtkWindowPresent.spec_c_name() == "gtk_window_present"@,
        SymbolId::GtkInit.spec_c_name() == "gtk_init"@,
        SymbolId::GSignalEmitByName.spec_c_name() == "g_signal_emit_by_name"@,
{
}

/// Each entry point is looked up in exactly the library that exports it.
pub proof fn law_symbol_libraries()
    ensures
        SymbolId::GMainLoopNew.spec_library() == LibraryKind::Glib,
        SymbolId::GMainLoopRun.spec_library() == LibraryKind::Glib,
        SymbolId::GMainLoopQuit.spec_library() == LibraryKind::Glib,
        SymbolId::GObjectRef.spec_library() == LibraryKind::Gobject,
        SymbolId::GObjectUnref.spec_library() == LibraryKind::Gobject,
        SymbolId::GObjectRefSink.spec_library() == LibraryKind::Gobject,
        SymbolId::GSignalConnectData.spec_library() == LibraryKind::Gobject,
        SymbolId::GSignalConnect.spec_library() == LibraryKind::Gobject,
        SymbolId::GtkWindowNew.spec_library() == LibraryKind::Gtk,
        SymbolId::GtkWindowSetTitle.spec_library() == LibraryKind::Gtk,
        SymbolId::GtkButtonNewWithLabel.spec_library() == LibraryKind::Gtk,
        SymbolId::GtkLabelNew.spec_library() == LibraryKind::Gtk,
        SymbolId::GtkLabelSetText.spec_library() == LibraryKind::Gtk,
        SymbolId::GtkLabelGetText.spec_library() == LibraryKind::Gtk,
        SymbolId::GtkBoxNew.spec_library() == LibraryKind::Gtk,
        SymbolId::GtkBoxAppend.spec_library() == LibraryKind::Gtk,
        SymbolId::GtkBoxPackStart.spec_library() == LibraryKind::Gtk,
        SymbolId::GtkContainerAdd.spec_library() == LibraryKind::Gtk,
        SymbolId::GtkWindowSetChild.spec_library() == LibraryKind::Gtk,
        SymbolId::GtkWidgetShowAll.spec_library() == LibraryKind::Gtk,
        SymbolId::GtkWindowPresent.spec_library() == LibraryKind::Gtk,
        SymbolId::GtkInit.spec_library() == LibraryKind::Gtk,
        SymbolId::GSignalEmitByName.spec_library() == LibraryKind::Gobject,
{
}

/// The table answers for each entry point with the field of the same name.
pub proof fn law_table_fields(t: Symbols)
    ensures
        t.spec_has(SymbolId::GMainLoopNew) == t.g_main_loop_new,
        t.spec_has(SymbolId::GMainLoopRun) == t.g_main_loop_run,
        t.spec_has(SymbolId::GMainLoopQuit) == t.g_main_loop_quit,
        t.spec_has(SymbolId::GObjectRef) == t.g_object_ref,
        t.spec_has(SymbolId::GObjectUnref) == t.g_object_unref,
        t.spec_has(SymbolId::GObjectRefSink) == t.g_object_ref_sink,
        t.spec_has(SymbolId::GSignalConnectData) == t.g_signal_connect_data,
        t.spec_has(SymbolId::GSignalConnect) == t.g_signal_connect,
        t.spec_has(SymbolId::GtkWindowNew) == t.gtk_window_new,
        t.spec_has(SymbolId::GtkWindowSetTitle) == t.gtk_window_set_title,
        t.spec_has(SymbolId::GtkButtonNewWithLabel) == t.gtk_button_new_with_label,
        t.spec_has(SymbolId::GtkLabelNew) == t.gtk_label_new,
        t.spec_has(SymbolId::GtkLabelSetText) == t.gtk_label_set_text,
        t.spec_has(SymbolId::GtkLabelGetText) == t.gtk_label_get_text,
        t.spec_has(SymbolId::GtkBoxNew) == t.gtk_box_new,
        t.spec_has(SymbolId::GtkBoxAppend) == t.gtk_box_append,
        t.spec_has(SymbolId::GtkBoxPackStart) == t.gtk_box_pack_start,
        t.spec_has(SymbolId::GtkContainerAdd) == t.gtk_container_add,
        t.spec_has(SymbolId::GtkWindowSetChild) == t.gtk_window_set_child,
        t.spec_has(SymbolId::GtkWidgetShowAll) == t.gtk_widget_show_all,
        t.spec_has(SymbolId::GtkWindowPresent) == t.gtk_window_present,
        t.spec_has(SymbolId::GtkInit) == t.gtk_init,
        t.spec_has(SymbolId::GSignalEmitByName) == t.g_signal_emit_by_name,
{
}

/// Each call goes through the entry point of the same name.
pub proof fn law_call_symbols(c: CallSpec)
    ensures
        c is GMainLoopNew ==> c.symbol() == SymbolId::GMainLoopNew,
        c is GMainLoopRun ==> c.symbol() == SymbolId::GMainLoopRun,
        c is GObjectRef ==> c.symbol() == SymbolId::GObjectRef,
        c is GObjectUnref ==> c.symbol() == SymbolId::GObjectUnref,
        c is GObjectRefSink ==> c.symbol() == SymbolId::GObjectRefSink,
        c is GSignalConnectData ==> c.symbol() == SymbolId::GSignalConnectData,
        c is GSignalConnect ==> c.symbol() == SymbolId::GSignalConnect,
        c is GSignalEmitByName ==> c.symbol() == SymbolId::GSignalEmitByName,
        c is GtkWindowNew ==> c.symbol() == SymbolId::GtkWindowNew,
        c is GtkWindowSetTitle ==> c.symbol() == SymbolId::GtkWindowSetTitle,
        c is GtkButtonNewWithLabel ==> c.symbol() == SymbolId::GtkButtonNewWithLabel,
        c is GtkLabelNew ==> c.symbol() == SymbolId::GtkLabelNew,
        c is GtkLabelSetText ==> c.symbol() == SymbolId::GtkLabelSetText,
        c is GtkLabelGetText ==> c.symbol() == SymbolId::GtkLabelGetText,
        c is GtkBoxNew ==> c.symbol() == SymbolId::GtkBoxNew,
        c is GtkBoxAppend ==> c.symbol() == SymbolId::GtkBoxAppend,
        c is GtkBoxPackStart ==> c.symbol() == SymbolId::GtkBoxPackStart,
        c is GtkContainerAdd ==> c.symbol() == SymbolId::GtkContainerAdd,
        c is GtkWindowSetChild ==> c.symbol() == SymbolId::GtkWindowSetChild,
        c is GtkWidgetShowAll ==> c.symbol() == SymbolId::GtkWidgetShowAll,
        c is GtkWindowPresent ==> c.symbol() == SymbolId::GtkWindowPresent,
{
}

/// The libraries are registered under the keys "libgtk", "libglib" and
/// "libgobject", and the library reported missing is the first of libgtk,
/// libglib, libgobject whose key is absent; none is reported when all three
/// are present.
pub proof fn law_first_missing_library(keys: Seq<String>)
    ensures
        LibraryKind::Gtk.spec_key() == "libgtk"@,
        LibraryKind::Glib.spec_key() == "libglib"@,
        LibraryKind::Gobject.spec_key() == "libgobject"@,
        is_registered(keys, LibraryKind::Gtk) <==> exists|i: int|
            0 <= i < keys.len() && keys[i]@ == "libgtk"@,
        spec_first_missing_library(keys) is None <==> (is_registered(keys, LibraryKind::Gtk)
            && is_registered(keys, LibraryKind::Glib) && is_registered(keys, LibraryKind::Gobject)),
        spec_first_missing_library(keys) == Some(LibraryKind::Gtk) <==> !is_registered(
            keys,
            LibraryKind::Gtk,
        ),
        spec_first_missing_library(keys) == Some(LibraryKind::Glib) <==> (is_registered(
            keys,
            LibraryKind::Gtk,
        ) && !is_registered(keys, LibraryKind::Glib)),
        spec_first_missing_library(keys) == Some(LibraryKind::Gobject) <==> (is_registered(
            keys,
            LibraryKind::Gtk,
        ) && is_registered(keys, LibraryKind::Glib) && !is_registered(keys, LibraryKind::Gobject)),
{
}

/// Taking ownership of a new object is `g_object_ref_sink` on it whenever
/// that was found, whatever else was; `g_object_ref` only when
/// `g_object_ref_sink` is missing; nothing when both are. Releasing is
/// `g_object_unref` on the object exactly when that was found, and copying a
/// wrapper is `g_object_ref` on the object exactly when that was found.
pub proof fn law_reference_calls(symbols: Symbols, object: usize)
    ensures
        symbols.g_object_ref_sink ==> spec_sink(symbols, object) == Some(
            CallSpec::GObjectRefSink { object },
        ),
        (!symbols.g_object_ref_sink && symbols.g_object_ref) ==> spec_sink(symbols, object) == Some(
            CallSpec::GObjectRef { object },
        ),
        (!symbols.g_object_ref_sink && !symbols.g_object_ref) ==> spec_sink(symbols, object) is None,
        symbols.g_object_unref ==> spec_release(symbols, object) == Some(
            CallSpec::GObjectUnref { object },
        ),
        !symbols.g_object_unref ==> spec_release(symbols, object) is None,
        symbols.g_object_ref ==> spec_add_ref(symbols, object) == Some(CallSpec::GObjectRef { object }),
        !symbols.g_object_ref ==> spec_add_ref(symbols, object) is None,
{
}

/// Setting a label's text is `gtk_label_set_text` on the label with exactly
/// the given text, any text, the empty one included, whenever that entry
/// point was found, and nothing otherwise. Reading it is
/// `gtk_label_get_text` on the label whenever that was found.
pub proof fn law_label_text(w: WidgetState, text: Seq<char>)
    ensures
        w.symbols.gtk_label_set_text ==> spec_set_text(w, text) == Some(
            CallSpec::GtkLabelSetText { label: w.handle, text },
        ),
        !w.symbols.gtk_label_set_text ==> spec_set_text(w, text) is None,
        w.symbols.gtk_label_get_text ==> spec_get_text(w) == Some(
            CallSpec::GtkLabelGetText { label: w.handle },
        ),
        !w.symbols.gtk_label_get_text ==> spec_get_text(w) is None,
{
}

/// Setting a window's title is `gtk_window_set_title` on the window with
/// exactly the given title, whatever characters it holds, whenever that entry
/// point was found, and nothing otherwise.
pub proof fn law_window_title(w: WidgetState, title: Seq<char>)
    ensures
        w.symbols.gtk_window_set_title ==> spec_set_title(w, title) == Some(
            CallSpec::GtkWindowSetTitle { window: w.handle, title },
        ),
        !w.symbols.gtk_window_set_title ==> spec_set_title(w, title) is None,
{
}

/// Adding a child: to a box with `gtk_box_append` whenever found, else with
/// `gtk_box_pack_start` (expand, fill, no padding); to a window with
/// `gtk_window_set_child` whenever found, else with `gtk_container_add`;
/// nothing when neither entry point was found.
pub proof fn law_children(w: WidgetState, child: usize)
    ensures
        w.symbols.gtk_box_append ==> spec_append(w, child) == Some(
            CallSpec::GtkBoxAppend { container: w.handle, child },
        ),
        (!w.symbols.gtk_box_append && w.symbols.gtk_box_pack_start) ==> spec_append(w, child) == Some(
            CallSpec::GtkBoxPackStart { container: w.handle, child, expand: 1, fill: 1, padding: 0 },
        ),
        (!w.symbols.gtk_box_append && !w.symbols.gtk_box_pack_start) ==> spec_append(w, child) is None,
        w.symbols.gtk_window_set_child ==> spec_set_child(w, child) == Some(
            CallSpec::GtkWindowSetChild { window: w.handle, child },
        ),
        (!w.symbols.gtk_window_set_child && w.symbols.gtk_container_add) ==> spec_set_child(w, child)
            == Some(CallSpec::GtkContainerAdd { container: w.handle, widget: child }),
        (!w.symbols.gtk_window_set_child && !w.symbols.gtk_container_add) ==> spec_set_child(
            w,
            child,
        ) is None,
{
}

/// Presenting a window shows it with its children (`gtk_widget_show_all`)
/// before presenting it (`gtk_window_present`), each call made exactly when
/// its entry point was found, and nothing else.
pub proof fn law_present(w: WidgetState)
    ensures
        (w.symbols.gtk_widget_show_all && w.symbols.gtk_window_present) ==> spec_present(w) == seq![
            CallSpec::GtkWidgetShowAll { widget: w.handle },
            CallSpec::GtkWindowPresent { window: w.handle },
        ],
        (w.symbols.gtk_widget_show_all && !w.symbols.gtk_window_present) ==> spec_present(w)
            == seq![CallSpec::GtkWidgetShowAll { widget: w.handle }],
        (!w.symbols.gtk_widget_show_all && w.symbols.gtk_window_present) ==> spec_present(w)
            == seq![CallSpec::GtkWindowPresent { window: w.handle }],
        (!w.symbols.gtk_widget_show_all && !w.symbols.gtk_window_present) ==> spec_present(w)
            == Seq::<CallSpec>::empty(),
{
    assert(Seq::<CallSpec>::empty() + Seq::<CallSpec>::empty() =~= Seq::<CallSpec>::empty());
    assert(seq![CallSpec::GtkWidgetShowAll { widget: w.handle }] + Seq::<CallSpec>::empty()
        =~= seq![CallSpec::GtkWidgetShowAll { widget: w.handle }]);
    assert(Seq::<CallSpec>::empty() + seq![CallSpec::GtkWindowPresent { window: w.handle }]
        =~= seq![CallSpec::GtkWindowPresent { window: w.handle }]);
    assert(seq![CallSpec::GtkWidgetShowAll { widget: w.handle }] + seq![
        CallSpec::GtkWindowPresent { window: w.handle },
    ] =~= seq![
        CallSpec::GtkWidgetShowAll { widget: w.handle },
        CallSpec::GtkWindowPresent { window: w.handle },
    ]);
}

/// A constructor step yields its creating call exactly when its entry point
/// was found, and otherwise fails with the missing entry point's C name. The
/// creating calls are `gtk_box_new` with the orientation's GTK value
/// (horizontal 0, vertical 1) and the given spacing, `gtk_window_new` with
/// the top-level type 0, and `gtk_button_new_with_label` / `gtk_label_new`
/// with exactly the given text.
pub proof fn law_constructors(
    r: Result<FfiCall, Error>,
    symbols: Symbols,
    s: SymbolId,
    call: CallSpec,
    spacing: i32,
    text: Seq<char>,
)
    ensures
        constructed(r, symbols, s, call) ==> (symbols.spec_has(s) ==> (r matches Ok(c) && c@ == call)),
        constructed(r, symbols, s, call) ==> (!symbols.spec_has(s) ==> (r matches Err(
            Error::MissingSymbol(n),
        ) && n@ == s.spec_c_name())),
        spec_box_new_call(Orientation::Horizontal, spacing) == (CallSpec::GtkBoxNew {
            orientation: 0,
            spacing,
        }),
        spec_box_new_call(Orientation::Vertical, spacing) == (CallSpec::GtkBoxNew {
            orientation: 1,
            spacing,
        }),
        spec_window_new_call() == (CallSpec::GtkWindowNew { window_type: 0 }),
        spec_button_new_call(text) == (CallSpec::GtkButtonNewWithLabel { label: text }),
        spec_label_new_call(text) == (CallSpec::GtkLabelNew { text }),
{
}

/// Emitting "clicked" is `g_signal_emit_by_name` on the button with the
/// signal "clicked" whenever that was found, and otherwise fails naming
/// "g_signal_emit_by_name".
pub proof fn law_emit_clicked(w: WidgetState, r: Result<FfiCall, Error>)
    requires
        spec_emit_clicked(w, r),
    ensures
        w.symbols.g_signal_emit_by_name ==> (r matches Ok(c) && c@ == (CallSpec::GSignalEmitByName {
            instance: w.handle,
            signal: "clicked"@,
        })),
        !w.symbols.g_signal_emit_by_name ==> (r matches Err(Error::MissingSymbol(n)) && n@
            == "g_signal_emit_by_name"@),
{
}

/// Running the application creates a main loop on the default context, not
/// yet running, exactly when both `g_main_loop_new` and `g_main_loop_run`
/// were found; otherwise it fails naming `g_main_loop_new` if that is
/// missing, else `g_main_loop_run`.
pub proof fn law_run(symbols: Symbols, r: Result<FfiCall, Error>)
    requires
        spec_run(symbols, r),
    ensures
        (symbols.g_main_loop_new && symbols.g_main_loop_run) ==> (r matches Ok(c) && c@
            == (CallSpec::GMainLoopNew { context: 0, is_running: 0 })),
        !symbols.g_main_loop_new ==> (r matches Err(Error::MissingSymbol(n)) && n@
            == "g_main_loop_new"@),
        (symbols.g_main_loop_new && !symbols.g_main_loop_run) ==> (r matches Err(
            Error::MissingSymbol(n),
        ) && n@ == "g_main_loop_run"@),
{
}

/// A text can be handed to C exactly when none of its characters is NUL.
pub proof fn law_c_text(text: Seq<char>)
    ensures
        is_c_text(text) <==> forall|i: int| 0 <= i < text.len() ==> text[i] != '\0',
{
}

/// Each call's mathematical value is the same call with the same arguments,
/// strings taken as their characters.
pub proof fn law_call_views(c: FfiCall)
    ensures
        c matches FfiCall::GMainLoopNew { context, is_running } ==> c@ == (CallSpec::GMainLoopNew { context, is_running }),
        c matches FfiCall::GMainLoopRun { main_loop } ==> c@ == (CallSpec::GMainLoopRun { main_loop }),
        c matches FfiCall::GObjectRef { object } ==> c@ == (CallSpec::GObjectRef { object }),
        c matches FfiCall::GObjectUnref { object } ==> c@ == (CallSpec::GObjectUnref { object }),
        c matches FfiCall::GObjectRefSink { object } ==> c@ == (CallSpec::GObjectRefSink { object }),
        c matches FfiCall::GSignalConnectData { instance, signal, connect_flags, destroy_notify } ==> c@ == (CallSpec::GSignalConnectData { instance, signal: signal@, connect_flags, destroy_notify }),
        c matches FfiCall::GSignalConnect { instance, signal } ==> c@ == (CallSpec::GSignalConnect { instance, signal: signal@ }),
        c matches FfiCall::GSignalEmitByName { instance, signal } ==> c@ == (CallSpec::GSignalEmitByName { instance, signal: signal@ }),
        c matches FfiCall::GtkWindowNew { window_type } ==> c@ == (CallSpec::GtkWindowNew { window_type }),
        c matches FfiCall::GtkWindowSetTitle { window, title } ==> c@ == (CallSpec::GtkWindowSetTitle { window, title: title@ }),
        c matches FfiCall::GtkButtonNewWithLabel { label } ==> c@ == (CallSpec::GtkButtonNewWithLabel { label: label@ }),
        c matches FfiCall::GtkLabelNew { text } ==> c@ == (CallSpec::GtkLabelNew { text: text@ }),
        c matches FfiCall::GtkLabelSetText { label, text } ==> c@ == (CallSpec::GtkLabelSetText { label, text: text@ }),
        c matches FfiCall::GtkLabelGetText { label } ==> c@ == (CallSpec::GtkLabelGetText { label }),
        c matches FfiCall::GtkBoxNew { orientation, spacing } ==> c@ == (CallSpec::GtkBoxNew { orientation, spacing }),
        c matches FfiCall::GtkBoxAppend { container, child } ==> c@ == (CallSpec::GtkBoxAppend { container, child }),
        c matches FfiCall::GtkBoxPackStart { container, child, expand, fill, padding } ==> c@ == (CallSpec::GtkBoxPackStart { container, child, expand, fill, padding }),
        c matches FfiCall::GtkContainerAdd { container, widget } ==> c@ == (CallSpec::GtkContainerAdd { container, widget }),
        c matches FfiCall::GtkWindowSetChild { window, child } ==> c@ == (CallSpec::GtkWindowSetChild { window, child }),
        c matches FfiCall::GtkWidgetShowAll { widget } ==> c@ == (CallSpec::GtkWidgetShowAll { widget }),
        c matches FfiCall::GtkWindowPresent { window } ==> c@ == (CallSpec::GtkWindowPresent { window }),
{
}

} // verus!
