//! Properties that hold across the operations of the library.
use vstd::prelude::*;

use crate::calls::{all_available, option_available, CallSpec, FfiCall};
use crate::error::Error;
use crate::signals::spec_connect_clicked;
use crate::symbols::{spec_all_symbols, LibraryKind, SymbolId, Symbols};
use crate::wrappers::{
    constructed, is_missing, spec_add_ref, spec_append, spec_get_text, spec_present, spec_release,
    spec_set_child, spec_set_text, spec_set_title, spec_sink, WidgetState,
};

verus! {

/// No operation ever decides on a call through an entry point that was not
/// found: for any wrapper state and any arguments, every call that taking
/// ownership, releasing, copying, appending, titling, setting a child,
/// presenting, setting or reading text, or connecting "clicked" amounts to
/// goes through a symbol the table holds.
pub proof fn law_calls_use_found_symbols(w: WidgetState, child: usize, text: Seq<char>)
    ensures
        option_available(w.symbols, spec_sink(w.symbols, w.handle)),
        option_available(w.symbols, spec_release(w.symbols, w.handle)),
        option_available(w.symbols, spec_add_ref(w.symbols, w.handle)),
        option_available(w.symbols, spec_append(w, child)),
        option_available(w.symbols, spec_set_title(w, text)),
        option_available(w.symbols, spec_set_child(w, child)),
        option_available(w.symbols, spec_set_text(w, text)),
        option_available(w.symbols, spec_get_text(w)),
        all_available(w.symbols, spec_present(w)),
        spec_connect_clicked(w.symbols, w.handle) matches Ok(c) ==> w.symbols.spec_has(c.symbol()),
{
}

/// A constructor step succeeds exactly when its entry point was found, and
/// then its call goes through that entry point; otherwise its error names the
/// missing entry point.
pub proof fn law_constructors_fail_only_on_missing_symbol(
    r: Result<FfiCall, Error>,
    symbols: Symbols,
    s: SymbolId,
    call: CallSpec,
)
    requires
        constructed(r, symbols, s, call),
        call.symbol() == s,
    ensures
        r is Ok <==> symbols.spec_has(s),
        r matches Ok(c) ==> symbols.spec_has(c@.symbol()),
        r matches Err(e) ==> is_missing(e, s),
{
}

/// The reference a copy of a wrapper takes is the one its release gives
/// back: when both `g_object_ref` and `g_object_unref` were found, copying
/// adds a reference to the same object that releasing the copy drops.
pub proof fn law_copy_release_balance(w: WidgetState)
    requires
        w.symbols.g_object_ref,
        w.symbols.g_object_unref,
    ensures
        spec_add_ref(w.symbols, w.handle) == Some(CallSpec::GObjectRef { object: w.handle }),
        spec_release(w.symbols, w.handle) == Some(CallSpec::GObjectUnref { object: w.handle }),
{
}

/// Taking ownership of a new object adds at most one reference, and none is
/// taken when neither reference entry point was found.
pub proof fn law_sink_takes_one_reference(symbols: Symbols, object: usize)
    ensures
        spec_sink(symbols, object) is None <==> (!symbols.g_object_ref_sink && !symbols.g_object_ref),
        spec_sink(symbols, object) matches Some(c) ==> (c == CallSpec::GObjectRefSink { object }
            || c == CallSpec::GObjectRef { object }),
{
}

/// The lookup order lists every symbol exactly once: the symbol at each
/// symbol's position is that symbol, and the list is as long as the table.
pub proof fn law_lookup_order_complete()
    ensures
        spec_all_symbols().len() == 23,
        forall|s: SymbolId|
            0 <= #[trigger] s.spec_index() < 23 && spec_all_symbols()[s.spec_index()] == s,
        forall|i: int, j: int|
            0 <= i < j < 23 ==> spec_all_symbols()[i] != spec_all_symbols()[j],
{
    assert forall|s: SymbolId|
        0 <= #[trigger] s.spec_index() < 23 && spec_all_symbols()[s.spec_index()] == s by {
    }
    assert forall|i: int, j: int|
        0 <= i < j < 23 implies spec_all_symbols()[i] != spec_all_symbols()[j] by {
        assert(spec_all_symbols()[i].spec_index() == i);
        assert(spec_all_symbols()[j].spec_index() == j);
    }
}

/// Each symbol is looked up in the library its name belongs to: names that
/// start with `gtk_` in GTK, names that start with `g_main_loop_` in GLib, and
/// the other `g_` names in GObject.
pub proof fn law_library_follows_name(s: SymbolId)
    ensures
        (s.spec_library() == LibraryKind::Gtk) <==> (s.spec_c_name().len() >= 4
            && s.spec_c_name().take(4) == "gtk_"@),
        (s.spec_library() == LibraryKind::Glib) <==> (s.spec_c_name().len() >= 12
            && s.spec_c_name().take(12) == "g_main_loop_"@),
        s.spec_library() == LibraryKind::Gobject ==> (s.spec_c_name().take(2) == "g_"@),
{
    reveal_strlit("gtk_");
    reveal_strlit("g_main_loop_");
    reveal_strlit("g_");
    match s {
        SymbolId::GMainLoopNew => {
            reveal_strlit("g_main_loop_new");
            assert(s.spec_c_name().take(4)[1] != "gtk_"@[1]);
            assert(s.spec_c_name().take(12) =~= "g_main_loop_"@);
        },
        SymbolId::GMainLoopRun => {
            reveal_strlit("g_main_loop_run");
            assert(s.spec_c_name().take(4)[1] != "gtk_"@[1]);
            assert(s.spec_c_name().take(12) =~= "g_main_loop_"@);
        },
        SymbolId::GMainLoopQuit => {
            reveal_strlit("g_main_loop_quit");
            assert(s.spec_c_name().take(4)[1] != "gtk_"@[1]);
            assert(s.spec_c_name().take(12) =~= "g_main_loop_"@);
        },
        SymbolId::GObjectRef => {
            reveal_strlit("g_object_ref");
            assert(s.spec_c_name().take(4)[1] != "gtk_"@[1]);
            assert(s.spec_c_name().take(2) =~= "g_"@);
            assert(s.spec_c_name().take(12)[2] != "g_main_loop_"@[2]);
        },
        SymbolId::GObjectUnref => {
            reveal_strlit("g_object_unref");
            assert(s.spec_c_name().take(4)[1] != "gtk_"@[1]);
            assert(s.spec_c_name().take(2) =~= "g_"@);
            assert(s.spec_c_name().take(12)[2] != "g_main_loop_"@[2]);
        },
        SymbolId::GObjectRefSink => {
            reveal_strlit("g_object_ref_sink");
            assert(s.spec_c_name().take(4)[1] != "gtk_"@[1]);
            assert(s.spec_c_name().take(2) =~= "g_"@);
            assert(s.spec_c_name().take(12)[2] != "g_main_loop_"@[2]);
        },
        SymbolId::GSignalConnectData => {
            reveal_strlit("g_signal_connect_data");
            assert(s.spec_c_name().take(4)[1] != "gtk_"@[1]);
            assert(s.spec_c_name().take(2) =~= "g_"@);
            assert(s.spec_c_name().take(12)[2] != "g_main_loop_"@[2]);
        },
        SymbolId::GSignalConnect => {
            reveal_strlit("g_signal_connect");
            assert(s.spec_c_name().take(4)[1] != "gtk_"@[1]);
            assert(s.spec_c_name().take(2) =~= "g_"@);
            assert(s.spec_c_name().take(12)[2] != "g_main_loop_"@[2]);
        },
        SymbolId::GtkWindowNew => {
            reveal_strlit("gtk_window_new");
            assert(s.spec_c_name().take(4) =~= "gtk_"@);
            assert(s.spec_c_name().take(12)[1] != "g_main_loop_"@[1]);
        },
        SymbolId::GtkWindowSetTitle => {
            reveal_strlit("gtk_window_set_title");
            assert(s.spec_c_name().take(4) =~= "gtk_"@);
            assert(s.spec_c_name().take(12)[1] != "g_main_loop_"@[1]);
        },
        SymbolId::GtkButtonNewWithLabel => {
            reveal_strlit("gtk_button_new_with_label");
            assert(s.spec_c_name().take(4) =~= "gtk_"@);
            assert(s.spec_c_name().take(12)[1] != "g_main_loop_"@[1]);
        },
        SymbolId::GtkLabelNew => {
            reveal_strlit("gtk_label_new");
            assert(s.spec_c_name().take(4) =~= "gtk_"@);
            assert(s.spec_c_name().take(12)[1] != "g_main_loop_"@[1]);
        },
        SymbolId::GtkLabelSetText => {
            reveal_strlit("gtk_label_set_text");
            assert(s.spec_c_name().take(4) =~= "gtk_"@);
            assert(s.spec_c_name().take(12)[1] != "g_main_loop_"@[1]);
        },
        SymbolId::GtkLabelGetText => {
            reveal_strlit("gtk_label_get_text");
            assert(s.spec_c_name().take(4) =~= "gtk_"@);
            assert(s.spec_c_name().take(12)[1] != "g_main_loop_"@[1]);
        },
        SymbolId::GtkBoxNew => {
            reveal_strlit("gtk_box_new");
            assert(s.spec_c_name().take(4) =~= "gtk_"@);
        },
        SymbolId::GtkBoxAppend => {
            reveal_strlit("gtk_box_append");
            assert(s.spec_c_name().take(4) =~= "gtk_"@);
            assert(s.spec_c_name().take(12)[1] != "g_main_loop_"@[1]);
        },
        SymbolId::GtkBoxPackStart => {
            reveal_strlit("gtk_box_pack_start");
            assert(s.spec_c_name().take(4) =~= "gtk_"@);
            assert(s.spec_c_name().take(12)[1] != "g_main_loop_"@[1]);
        },
        SymbolId::GtkContainerAdd => {
            reveal_strlit("gtk_container_add");
            assert(s.spec_c_name().take(4) =~= "gtk_"@);
            assert(s.spec_c_name().take(12)[1] != "g_main_loop_"@[1]);
        },
        SymbolId::GtkWindowSetChild => {
            reveal_strlit("gtk_window_set_child");
            assert(s.spec_c_name().take(4) =~= "gtk_"@);
            assert(s.spec_c_name().take(12)[1] != "g_main_loop_"@[1]);
        },
        SymbolId::GtkWidgetShowAll => {
            reveal_strlit("gtk_widget_show_all");
            assert(s.spec_c_name().take(4) =~= "gtk_"@);
            assert(s.spec_c_name().take(12)[1] != "g_main_loop_"@[1]);
        },
        SymbolId::GtkWindowPresent => {
            reveal_strlit("gtk_window_present");
            assert(s.spec_c_name().take(4) =~= "gtk_"@);
            assert(s.spec_c_name().take(12)[1] != "g_main_loop_"@[1]);
        },
        SymbolId::GtkInit => {
            reveal_strlit("gtk_init");
            assert(s.spec_c_name().take(4) =~= "gtk_"@);
        },
        SymbolId::GSignalEmitByName => {
            reveal_strlit("g_signal_emit_by_name");
            assert(s.spec_c_name().take(4)[1] != "gtk_"@[1]);
            assert(s.spec_c_name().take(2) =~= "g_"@);
            assert(s.spec_c_name().take(12)[2] != "g_main_loop_"@[2]);
        },
    }
}

/// What happens to the wrappers of one GObject after it is created and
/// adopted: a wrapper is copied (`Label::clone_handle`) or one wrapper goes
/// away (`release`).
pub enum WrapperEvent {
    Copy,
    Release,
}

/// The reference call an event amounts to.
pub open spec fn event_call(symbols: Symbols, object: usize, e: WrapperEvent) -> Option<CallSpec> {
    match e {
        WrapperEvent::Copy => spec_add_ref(symbols, object),
        WrapperEvent::Release => spec_release(symbols, object),
    }
}

/// The reference calls made on `object`, in order: taking ownership when it
/// is adopted, then one entry per event.
pub open spec fn reference_history(symbols: Symbols, object: usize, events: Seq<WrapperEvent>) -> Seq<
    Option<CallSpec>,
>
    decreases events.len(),
{
    if events.len() == 0 {
        seq![spec_sink(symbols, object)]
    } else {
        reference_history(symbols, object, events.drop_last()).push(
            event_call(symbols, object, events.last()),
        )
    }
}

/// How many of the calls take a reference on `object`.
pub open spec fn refs_taken(calls: Seq<Option<CallSpec>>, object: usize) -> int
    decreases calls.len(),
{
    if calls.len() == 0 {
        0
    } else {
        refs_taken(calls.drop_last(), object) + if calls.last() == Some(
            CallSpec::GObjectRefSink { object },
        ) || calls.last() == Some(CallSpec::GObjectRef { object }) {
            1int
        } else {
            0int
        }
    }
}

/// How many of the calls drop a reference on `object`.
pub open spec fn refs_dropped(calls: Seq<Option<CallSpec>>, object: usize) -> int
    decreases calls.len(),
{
    if calls.len() == 0 {
        0
    } else {
        refs_dropped(calls.drop_last(), object) + if calls.last() == Some(
            CallSpec::GObjectUnref { object },
        ) {
            1int
        } else {
            0int
        }
    }
}

/// How many wrappers of the object exist after the events: the adopted one,
/// plus the copies, minus the ones released.
pub open spec fn wrappers_alive(events: Seq<WrapperEvent>) -> int
    decreases events.len(),
{
    if events.len() == 0 {
        1
    } else {
        wrappers_alive(events.drop_last()) + match events.last() {
            WrapperEvent::Copy => 1int,
            WrapperEvent::Release => -1int,
        }
    }
}

/// Every event happens to an existing wrapper: before each event at least
/// one wrapper is alive.
pub open spec fn events_possible(events: Seq<WrapperEvent>) -> bool
    decreases events.len(),
{
    events.len() == 0 || (events_possible(events.drop_last()) && wrappers_alive(events.drop_last())
        >= 1)
}

/// References balance over any number of copies and releases: when
/// `g_object_ref` and `g_object_unref` were found, after any possible
/// sequence of copies and releases of the wrappers of an adopted object, the
/// references taken on it minus those dropped equal the number of wrappers
/// still alive. So while any wrapper is alive fewer references were dropped
/// than taken, and once all are released the two counts are equal.
pub proof fn law_references_balance(symbols: Symbols, object: usize, events: Seq<WrapperEvent>)
    requires
        symbols.g_object_ref,
        symbols.g_object_unref,
        events_possible(events),
    ensures
        wrappers_alive(events) >= 0,
        refs_taken(reference_history(symbols, object, events), object) - refs_dropped(
            reference_history(symbols, object, events),
            object,
        ) == wrappers_alive(events),
        wrappers_alive(events) > 0 ==> refs_dropped(reference_history(symbols, object, events), object)
            < refs_taken(reference_history(symbols, object, events), object),
        wrappers_alive(events) == 0 ==> refs_dropped(reference_history(symbols, object, events), object)
            == refs_taken(reference_history(symbols, object, events), object),
    decreases events.len(),
{
    let h = reference_history(symbols, object, events);
    if events.len() == 0 {
        assert(h == seq![spec_sink(symbols, object)]);
        assert(h.drop_last() =~= Seq::<Option<CallSpec>>::empty());
        assert(refs_taken(h.drop_last(), object) == 0);
        assert(refs_dropped(h.drop_last(), object) == 0);
        assert(h.last() == spec_sink(symbols, object));
        assert(refs_taken(h, object) == 1);
        assert(refs_dropped(h, object) == 0);
    } else {
        let prev = events.drop_last();
        law_references_balance(symbols, object, prev);
        assert(h.drop_last() =~= reference_history(symbols, object, prev));
        assert(h.last() == event_call(symbols, object, events.last()));
    }
}

} // verus!
