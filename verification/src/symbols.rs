//! The table of C entry points the wrappers use: which library each one is
//! looked up in, under which name, and which of them were found.
use vstd::prelude::*;

use crate::error::Error;

verus! {

/// The three shared libraries that symbols are looked up in.
#[derive(Clone, Copy, PartialEq, Eq, Structural, Debug)]
pub enum LibraryKind {
    Gtk,
    Glib,
    Gobject,
}

impl LibraryKind {
    /// The key under which the loaded library is registered.
    pub open spec fn spec_key(self) -> Seq<char> {
        match self {
            LibraryKind::Gtk => "libgtk"@,
            LibraryKind::Glib => "libglib"@,
            LibraryKind::Gobject => "libgobject"@,
        }
    }

    /// The key under which the loaded library is registered.
    pub fn key(&self) -> (r: &'static str)
        ensures
            r@ == self.spec_key(),
    {
        match self {
            LibraryKind::Gtk => "libgtk",
            LibraryKind::Glib => "libglib",
            LibraryKind::Gobject => "libgobject",
        }
    }
}

/// Whether a library is registered under `kind`'s key among `keys`.
pub open spec fn is_registered(keys: Seq<String>, kind: LibraryKind) -> bool {
    exists|i: int| 0 <= i < keys.len() && keys[i]@ == kind.spec_key()
}

/// The first of libgtk, libglib and libgobject, in that order, that is not
/// registered among `keys`; `None` when all three are.
pub open spec fn spec_first_missing_library(keys: Seq<String>) -> Option<LibraryKind> {
    if !is_registered(keys, LibraryKind::Gtk) {
        Some(LibraryKind::Gtk)
    } else if !is_registered(keys, LibraryKind::Glib) {
        Some(LibraryKind::Glib)
    } else if !is_registered(keys, LibraryKind::Gobject) {
        Some(LibraryKind::Gobject)
    } else {
        None
    }
}

/// Whether `keys` holds the key of `kind`.
fn registered(keys: &Vec<String>, kind: LibraryKind) -> (r: bool)
    ensures
        r == is_registered(keys@, kind),
{
    let key = kind.key().to_owned();
    let n = keys.len();
    for i in 0..n
        invariant
            n == keys@.len(),
            key@ == kind.spec_key(),
            forall|j: int| 0 <= j < i ==> keys@[j]@ != kind.spec_key(),
    {
        if keys[i] == key {
            return true;
        }
    }
    false
}

/// The library to report as missing before any symbol is looked up: the
/// first of libgtk, libglib and libgobject whose key is not among the
/// registered `keys`, or `None` when all three are registered.
pub fn first_missing_library(keys: &Vec<String>) -> (r: Option<LibraryKind>)
    ensures
        r == spec_first_missing_library(keys@),
{
    if !registered(keys, LibraryKind::Gtk) {
        Some(LibraryKind::Gtk)
    } else if !registered(keys, LibraryKind::Glib) {
        Some(LibraryKind::Glib)
    } else if !registered(keys, LibraryKind::Gobject) {
        Some(LibraryKind::Gobject)
    } else {
        None
    }
}

/// One C entry point of GLib, GObject or GTK that the wrappers may call.
#[derive(Clone, Copy, PartialEq, Eq, Structural, Debug)]
pub enum SymbolId {
    GMainLoopNew,
    GMainLoopRun,
    GMainLoopQuit,
    GObjectRef,
    GObjectUnref,
    GObjectRefSink,
    GSignalConnectData,
    GSignalConnect,
    GtkWindowNew,
    GtkWindowSetTitle,
    GtkButtonNewWithLabel,
    GtkLabelNew,
    GtkLabelSetText,
    GtkLabelGetText,
    GtkBoxNew,
    GtkBoxAppend,
    GtkBoxPackStart,
    GtkContainerAdd,
    GtkWindowSetChild,
    GtkWidgetShowAll,
    GtkWindowPresent,
    GtkInit,
    GSignalEmitByName,
}

/// The number of entry points in the table.
pub const SYMBOL_COUNT: usize = 23;

impl SymbolId {
    /// The C name the symbol is looked up under.
    pub open spec fn spec_c_name(self) -> Seq<char> {
        match self {
            SymbolId::GMainLoopNew => "g_main_loop_new"@,
            SymbolId::GMainLoopRun => "g_main_loop_run"@,
            SymbolId::GMainLoopQuit => "g_main_loop_quit"@,
            SymbolId::GObjectRef => "g_object_ref"@,
            SymbolId::GObjectUnref => "g_object_unref"@,
            SymbolId::GObjectRefSink => "g_object_ref_sink"@,
            SymbolId::GSignalConnectData => "g_signal_connect_data"@,
            SymbolId::GSignalConnect => "g_signal_connect"@,
            SymbolId::GtkWindowNew => "gtk_window_new"@,
            SymbolId::GtkWindowSetTitle => "gtk_window_set_title"@,
            SymbolId::GtkButtonNewWithLabel => "gtk_button_new_with_label"@,
            SymbolId::GtkLabelNew => "gtk_label_new"@,
            SymbolId::GtkLabelSetText => "gtk_label_set_text"@,
            SymbolId::GtkLabelGetText => "gtk_label_get_text"@,
            SymbolId::GtkBoxNew => "gtk_box_new"@,
            SymbolId::GtkBoxAppend => "gtk_box_append"@,
            SymbolId::GtkBoxPackStart => "gtk_box_pack_start"@,
            SymbolId::GtkContainerAdd => "gtk_container_add"@,
            SymbolId::GtkWindowSetChild => "gtk_window_set_child"@,
            SymbolId::GtkWidgetShowAll => "gtk_widget_show_all"@,
            SymbolId::GtkWindowPresent => "gtk_window_present"@,
            SymbolId::GtkInit => "gtk_init"@,
            SymbolId::GSignalEmitByName => "g_signal_emit_by_name"@,
        }
    }

    /// The library the symbol is looked up in.
    pub open spec fn spec_library(self) -> LibraryKind {
        match self {
            SymbolId::GMainLoopNew => LibraryKind::Glib,
            SymbolId::GMainLoopRun => LibraryKind::Glib,
            SymbolId::GMainLoopQuit => LibraryKind::Glib,
            SymbolId::GObjectRef => LibraryKind::Gobject,
            SymbolId::GObjectUnref => LibraryKind::Gobject,
            SymbolId::GObjectRefSink => LibraryKind::Gobject,
            SymbolId::GSignalConnectData => LibraryKind::Gobject,
            SymbolId::GSignalConnect => LibraryKind::Gobject,
            SymbolId::GtkWindowNew => LibraryKind::Gtk,
            SymbolId::GtkWindowSetTitle => LibraryKind::Gtk,
            SymbolId::GtkButtonNewWithLabel => LibraryKind::Gtk,
            SymbolId::GtkLabelNew => LibraryKind::Gtk,
            SymbolId::GtkLabelSetText => LibraryKind::Gtk,
            SymbolId::GtkLabelGetText => LibraryKind::Gtk,
            SymbolId::GtkBoxNew => LibraryKind::Gtk,
            SymbolId::GtkBoxAppend => LibraryKind::Gtk,
            SymbolId::GtkBoxPackStart => LibraryKind::Gtk,
            SymbolId::GtkContainerAdd => LibraryKind::Gtk,
            SymbolId::GtkWindowSetChild => LibraryKind::Gtk,
            SymbolId::GtkWidgetShowAll => LibraryKind::Gtk,
            SymbolId::GtkWindowPresent => LibraryKind::Gtk,
            SymbolId::GtkInit => LibraryKind::Gtk,
            SymbolId::GSignalEmitByName => LibraryKind::Gobject,
        }
    }

    /// The position of the symbol in the lookup order.
    pub open spec fn spec_index(self) -> int {
        match self {
            SymbolId::GMainLoopNew => 0,
            SymbolId::GMainLoopRun => 1,
            SymbolId::GMainLoopQuit => 2,
            SymbolId::GObjectRef => 3,
            SymbolId::GObjectUnref => 4,
            SymbolId::GObjectRefSink => 5,
            SymbolId::GSignalConnectData => 6,
            SymbolId::GSignalConnect => 7,
            SymbolId::GtkWindowNew => 8,
            SymbolId::GtkWindowSetTitle => 9,
            SymbolId::GtkButtonNewWithLabel => 10,
            SymbolId::GtkLabelNew => 11,
            SymbolId::GtkLabelSetText => 12,
            SymbolId::GtkLabelGetText => 13,
            SymbolId::GtkBoxNew => 14,
            SymbolId::GtkBoxAppend => 15,
            SymbolId::GtkBoxPackStart => 16,
            SymbolId::GtkContainerAdd => 17,
            SymbolId::GtkWindowSetChild => 18,
            SymbolId::GtkWidgetShowAll => 19,
            SymbolId::GtkWindowPresent => 20,
            SymbolId::GtkInit => 21,
            SymbolId::GSignalEmitByName => 22,
        }
    }

    /// The C name the symbol is looked up under.
    pub fn c_name(&self) -> (r: &'static str)
        ensures
            r@ == self.spec_c_name(),
    {
        match self {
            SymbolId::GMainLoopNew => "g_main_loop_new",
            SymbolId::GMainLoopRun => "g_main_loop_run",
            SymbolId::GMainLoopQuit => "g_main_loop_quit",
            SymbolId::GObjectRef => "g_object_ref",
            SymbolId::GObjectUnref => "g_object_unref",
            SymbolId::GObjectRefSink => "g_object_ref_sink",
            SymbolId::GSignalConnectData => "g_signal_connect_data",
            SymbolId::GSignalConnect => "g_signal_connect",
            SymbolId::GtkWindowNew => "gtk_window_new",
            SymbolId::GtkWindowSetTitle => "gtk_window_set_title",
            SymbolId::GtkButtonNewWithLabel => "gtk_button_new_with_label",
            SymbolId::GtkLabelNew => "gtk_label_new",
            SymbolId::GtkLabelSetText => "gtk_label_set_text",
            SymbolId::GtkLabelGetText => "gtk_label_get_text",
            SymbolId::GtkBoxNew => "gtk_box_new",
            SymbolId::GtkBoxAppend => "gtk_box_append",
            SymbolId::GtkBoxPackStart => "gtk_box_pack_start",
            SymbolId::GtkContainerAdd => "gtk_container_add",
            SymbolId::GtkWindowSetChild => "gtk_window_set_child",
            SymbolId::GtkWidgetShowAll => "gtk_widget_show_all",
            SymbolId::GtkWindowPresent => "gtk_window_present",
            SymbolId::GtkInit => "gtk_init",
            SymbolId::GSignalEmitByName => "g_signal_emit_by_name",
        }
    }

    /// The position of the symbol in the lookup order.
    pub fn index(&self) -> (r: usize)
        ensures
            r == self.spec_index(),
            r < SYMBOL_COUNT,
    {
        match self {
            SymbolId::GMainLoopNew => 0,
            SymbolId::GMainLoopRun => 1,
            SymbolId::GMainLoopQuit => 2,
            SymbolId::GObjectRef => 3,
            SymbolId::GObjectUnref => 4,
            SymbolId::GObjectRefSink => 5,
            SymbolId::GSignalConnectData => 6,
            SymbolId::GSignalConnect => 7,
            SymbolId::GtkWindowNew => 8,
            SymbolId::GtkWindowSetTitle => 9,
            SymbolId::GtkButtonNewWithLabel => 10,
            SymbolId::GtkLabelNew => 11,
            SymbolId::GtkLabelSetText => 12,
            SymbolId::GtkLabelGetText => 13,
            SymbolId::GtkBoxNew => 14,
            SymbolId::GtkBoxAppend => 15,
            SymbolId::GtkBoxPackStart => 16,
            SymbolId::GtkContainerAdd => 17,
            SymbolId::GtkWindowSetChild => 18,
            SymbolId::GtkWidgetShowAll => 19,
            SymbolId::GtkWindowPresent => 20,
            SymbolId::GtkInit => 21,
            SymbolId::GSignalEmitByName => 22,
        }
    }

    /// The library the symbol is looked up in.
    pub fn library(&self) -> (r: LibraryKind)
        ensures
            r == self.spec_library(),
    {
        match self {
            SymbolId::GMainLoopNew => LibraryKind::Glib,
            SymbolId::GMainLoopRun => LibraryKind::Glib,
            SymbolId::GMainLoopQuit => LibraryKind::Glib,
            SymbolId::GObjectRef => LibraryKind::Gobject,
            SymbolId::GObjectUnref => LibraryKind::Gobject,
            SymbolId::GObjectRefSink => LibraryKind::Gobject,
            SymbolId::GSignalConnectData => LibraryKind::Gobject,
            SymbolId::GSignalConnect => LibraryKind::Gobject,
            SymbolId::GtkWindowNew => LibraryKind::Gtk,
            SymbolId::GtkWindowSetTitle => LibraryKind::Gtk,
            SymbolId::GtkButtonNewWithLabel => LibraryKind::Gtk,
            SymbolId::GtkLabelNew => LibraryKind::Gtk,
            SymbolId::GtkLabelSetText => LibraryKind::Gtk,
            SymbolId::GtkLabelGetText => LibraryKind::Gtk,
            SymbolId::GtkBoxNew => LibraryKind::Gtk,
            SymbolId::GtkBoxAppend => LibraryKind::Gtk,
            SymbolId::GtkBoxPackStart => LibraryKind::Gtk,
            SymbolId::GtkContainerAdd => LibraryKind::Gtk,
            SymbolId::GtkWindowSetChild => LibraryKind::Gtk,
            SymbolId::GtkWidgetShowAll => LibraryKind::Gtk,
            SymbolId::GtkWindowPresent => LibraryKind::Gtk,
            SymbolId::GtkInit => LibraryKind::Gtk,
            SymbolId::GSignalEmitByName => LibraryKind::Gobject,
        }
    }
}

/// Every symbol, in lookup order.
pub open spec fn spec_all_symbols() -> Seq<SymbolId> {
    seq![
        SymbolId::GMainLoopNew,
        SymbolId::GMainLoopRun,
        SymbolId::GMainLoopQuit,
        SymbolId::GObjectRef,
        SymbolId::GObjectUnref,
        SymbolId::GObjectRefSink,
        SymbolId::GSignalConnectData,
        SymbolId::GSignalConnect,
        SymbolId::GtkWindowNew,
        SymbolId::GtkWindowSetTitle,
        SymbolId::GtkButtonNewWithLabel,
        SymbolId::GtkLabelNew,
        SymbolId::GtkLabelSetText,
        SymbolId::GtkLabelGetText,
        SymbolId::GtkBoxNew,
        SymbolId::GtkBoxAppend,
        SymbolId::GtkBoxPackStart,
        SymbolId::GtkContainerAdd,
        SymbolId::GtkWindowSetChild,
        SymbolId::GtkWidgetShowAll,
        SymbolId::GtkWindowPresent,
        SymbolId::GtkInit,
        SymbolId::GSignalEmitByName,
    ]
}

/// Every symbol of the table, once each, in the order they are looked up.
pub fn all_symbols() -> (r: Vec<SymbolId>)
    ensures
        r@ == spec_all_symbols(),
{
    vec![
        SymbolId::GMainLoopNew,
        SymbolId::GMainLoopRun,
        SymbolId::GMainLoopQuit,
        SymbolId::GObjectRef,
        SymbolId::GObjectUnref,
        SymbolId::GObjectRefSink,
        SymbolId::GSignalConnectData,
        SymbolId::GSignalConnect,
        SymbolId::GtkWindowNew,
        SymbolId::GtkWindowSetTitle,
        SymbolId::GtkButtonNewWithLabel,
        SymbolId::GtkLabelNew,
        SymbolId::GtkLabelSetText,
        SymbolId::GtkLabelGetText,
        SymbolId::GtkBoxNew,
        SymbolId::GtkBoxAppend,
        SymbolId::GtkBoxPackStart,
        SymbolId::GtkContainerAdd,
        SymbolId::GtkWindowSetChild,
        SymbolId::GtkWidgetShowAll,
        SymbolId::GtkWindowPresent,
        SymbolId::GtkInit,
        SymbolId::GSignalEmitByName,
    ]
}

/// Which entry points were found: each field is true when the symbol of the
/// same name resolved in its library.
#[derive(Clone, Copy, PartialEq, Eq, Debug)]
pub struct Symbols {
    pub g_main_loop_new: bool,
    pub g_main_loop_run: bool,
    pub g_main_loop_quit: bool,
    pub g_object_ref: bool,
    pub g_object_unref: bool,
    pub g_object_ref_sink: bool,
    pub g_signal_connect_data: bool,
    pub g_signal_connect: bool,
    pub gtk_window_new: bool,
    pub gtk_window_set_title: bool,
    pub gtk_button_new_with_label: bool,
    pub gtk_label_new: bool,
    pub gtk_label_set_text: bool,
    pub gtk_label_get_text: bool,
    pub gtk_box_new: bool,
    pub gtk_box_append: bool,
    pub gtk_box_pack_start: bool,
    pub gtk_container_add: bool,
    pub gtk_window_set_child: bool,
    pub gtk_widget_show_all: bool,
    pub gtk_window_present: bool,
    pub gtk_init: bool,
    pub g_signal_emit_by_name: bool,
}

impl Symbols {
    /// Whether the symbol was found.
    pub open spec fn spec_has(self, s: SymbolId) -> bool {
        match s {
            SymbolId::GMainLoopNew => self.g_main_loop_new,
            SymbolId::GMainLoopRun => self.g_main_loop_run,
            SymbolId::GMainLoopQuit => self.g_main_loop_quit,
            SymbolId::GObjectRef => self.g_object_ref,
            SymbolId::GObjectUnref => self.g_object_unref,
            SymbolId::GObjectRefSink => self.g_object_ref_sink,
            SymbolId::GSignalConnectData => self.g_signal_connect_data,
            SymbolId::GSignalConnect => self.g_signal_connect,
            SymbolId::GtkWindowNew => self.gtk_window_new,
            SymbolId::GtkWindowSetTitle => self.gtk_window_set_title,
            SymbolId::GtkButtonNewWithLabel => self.gtk_button_new_with_label,
            SymbolId::GtkLabelNew => self.gtk_label_new,
            SymbolId::GtkLabelSetText => self.gtk_label_set_text,
            SymbolId::GtkLabelGetText => self.gtk_label_get_text,
            SymbolId::GtkBoxNew => self.gtk_box_new,
            SymbolId::GtkBoxAppend => self.gtk_box_append,
            SymbolId::GtkBoxPackStart => self.gtk_box_pack_start,
            SymbolId::GtkContainerAdd => self.gtk_container_add,
            SymbolId::GtkWindowSetChild => self.gtk_window_set_child,
            SymbolId::GtkWidgetShowAll => self.gtk_widget_show_all,
            SymbolId::GtkWindowPresent => self.gtk_window_present,
            SymbolId::GtkInit => self.gtk_init,
            SymbolId::GSignalEmitByName => self.g_signal_emit_by_name,
        }
    }

    /// Whether the symbol was found.
    pub fn has(&self, s: SymbolId) -> (r: bool)
        ensures
            r == self.spec_has(s),
    {
        match s {
            SymbolId::GMainLoopNew => self.g_main_loop_new,
            SymbolId::GMainLoopRun => self.g_main_loop_run,
            SymbolId::GMainLoopQuit => self.g_main_loop_quit,
            SymbolId::GObjectRef => self.g_object_ref,
            SymbolId::GObjectUnref => self.g_object_unref,
            SymbolId::GObjectRefSink => self.g_object_ref_sink,
            SymbolId::GSignalConnectData => self.g_signal_connect_data,
            SymbolId::GSignalConnect => self.g_signal_connect,
            SymbolId::GtkWindowNew => self.gtk_window_new,
            SymbolId::GtkWindowSetTitle => self.gtk_window_set_title,
            SymbolId::GtkButtonNewWithLabel => self.gtk_button_new_with_label,
            SymbolId::GtkLabelNew => self.gtk_label_new,
            SymbolId::GtkLabelSetText => self.gtk_label_set_text,
            SymbolId::GtkLabelGetText => self.gtk_label_get_text,
            SymbolId::GtkBoxNew => self.gtk_box_new,
            SymbolId::GtkBoxAppend => self.gtk_box_append,
            SymbolId::GtkBoxPackStart => self.gtk_box_pack_start,
            SymbolId::GtkContainerAdd => self.gtk_container_add,
            SymbolId::GtkWindowSetChild => self.gtk_window_set_child,
            SymbolId::GtkWidgetShowAll => self.gtk_widget_show_all,
            SymbolId::GtkWindowPresent => self.gtk_window_present,
            SymbolId::GtkInit => self.gtk_init,
            SymbolId::GSignalEmitByName => self.g_signal_emit_by_name,
        }
    }

    /// A table in which no symbol was found.
    pub fn empty() -> (r: Symbols)
        ensures
            forall|s: SymbolId| !r.spec_has(s),
    {
        Symbols {
            g_main_loop_new: false,
            g_main_loop_run: false,
            g_main_loop_quit: false,
            g_object_ref: false,
            g_object_unref: false,
            g_object_ref_sink: false,
            g_signal_connect_data: false,
            g_signal_connect: false,
            gtk_window_new: false,
            gtk_window_set_title: false,
            gtk_button_new_with_label: false,
            gtk_label_new: false,
            gtk_label_set_text: false,
            gtk_label_get_text: false,
            gtk_box_new: false,
            gtk_box_append: false,
            gtk_box_pack_start: false,
            gtk_container_add: false,
            gtk_window_set_child: false,
            gtk_widget_show_all: false,
            gtk_window_present: false,
            gtk_init: false,
            g_signal_emit_by_name: false,
        }
    }

    /// Builds the table from the symbols whose lookup succeeded: a symbol is
    /// present exactly when it is among `found`.
    pub fn load(found: &Vec<SymbolId>) -> (r: Result<Symbols, Error>)
        ensures
            r is Ok,
            r matches Ok(t) ==> t.g_main_loop_new == found@.contains(SymbolId::GMainLoopNew),
            r matches Ok(t) ==> t.g_main_loop_run == found@.contains(SymbolId::GMainLoopRun),
            r matches Ok(t) ==> t.g_main_loop_quit == found@.contains(SymbolId::GMainLoopQuit),
            r matches Ok(t) ==> t.g_object_ref == found@.contains(SymbolId::GObjectRef),
            r matches Ok(t) ==> t.g_object_unref == found@.contains(SymbolId::GObjectUnref),
            r matches Ok(t) ==> t.g_object_ref_sink == found@.contains(SymbolId::GObjectRefSink),
            r matches Ok(t) ==> t.g_signal_connect_data == found@.contains(SymbolId::GSignalConnectData),
            r matches Ok(t) ==> t.g_signal_connect == found@.contains(SymbolId::GSignalConnect),
            r matches Ok(t) ==> t.gtk_window_new == found@.contains(SymbolId::GtkWindowNew),
            r matches Ok(t) ==> t.gtk_window_set_title == found@.contains(SymbolId::GtkWindowSetTitle),
            r matches Ok(t) ==> t.gtk_button_new_with_label == found@.contains(SymbolId::GtkButtonNewWithLabel),
            r matches Ok(t) ==> t.gtk_label_new == found@.contains(SymbolId::GtkLabelNew),
            r matches Ok(t) ==> t.gtk_label_set_text == found@.contains(SymbolId::GtkLabelSetText),
            r matches Ok(t) ==> t.gtk_label_get_text == found@.contains(SymbolId::GtkLabelGetText),
            r matches Ok(t) ==> t.gtk_box_new == found@.contains(SymbolId::GtkBoxNew),
            r matches Ok(t) ==> t.gtk_box_append == found@.contains(SymbolId::GtkBoxAppend),
            r matches Ok(t) ==> t.gtk_box_pack_start == found@.contains(SymbolId::GtkBoxPackStart),
            r matches Ok(t) ==> t.gtk_container_add == found@.contains(SymbolId::GtkContainerAdd),
            r matches Ok(t) ==> t.gtk_window_set_child == found@.contains(SymbolId::GtkWindowSetChild),
            r matches Ok(t) ==> t.gtk_widget_show_all == found@.contains(SymbolId::GtkWidgetShowAll),
            r matches Ok(t) ==> t.gtk_window_present == found@.contains(SymbolId::GtkWindowPresent),
            r matches Ok(t) ==> t.gtk_init == found@.contains(SymbolId::GtkInit),
            r matches Ok(t) ==> t.g_signal_emit_by_name == found@.contains(SymbolId::GSignalEmitByName),
    {
        let g_main_loop_new = contains_symbol(found, SymbolId::GMainLoopNew);
        let g_main_loop_run = contains_symbol(found, SymbolId::GMainLoopRun);
        let g_main_loop_quit = contains_symbol(found, SymbolId::GMainLoopQuit);
        let g_object_ref = contains_symbol(found, SymbolId::GObjectRef);
        let g_object_unref = contains_symbol(found, SymbolId::GObjectUnref);
        let g_object_ref_sink = contains_symbol(found, SymbolId::GObjectRefSink);
        let g_signal_connect_data = contains_symbol(found, SymbolId::GSignalConnectData);
        let g_signal_connect = contains_symbol(found, SymbolId::GSignalConnect);
        let gtk_window_new = contains_symbol(found, SymbolId::GtkWindowNew);
        let gtk_window_set_title = contains_symbol(found, SymbolId::GtkWindowSetTitle);
        let gtk_button_new_with_label = contains_symbol(found, SymbolId::GtkButtonNewWithLabel);
        let gtk_label_new = contains_symbol(found, SymbolId::GtkLabelNew);
        let gtk_label_set_text = contains_symbol(found, SymbolId::GtkLabelSetText);
        let gtk_label_get_text = contains_symbol(found, SymbolId::GtkLabelGetText);
        let gtk_box_new = contains_symbol(found, SymbolId::GtkBoxNew);
        let gtk_box_append = contains_symbol(found, SymbolId::GtkBoxAppend);
        let gtk_box_pack_start = contains_symbol(found, SymbolId::GtkBoxPackStart);
        let gtk_container_add = contains_symbol(found, SymbolId::GtkContainerAdd);
        let gtk_window_set_child = contains_symbol(found, SymbolId::GtkWindowSetChild);
        let gtk_widget_show_all = contains_symbol(found, SymbolId::GtkWidgetShowAll);
        let gtk_window_present = contains_symbol(found, SymbolId::GtkWindowPresent);
        let gtk_init = contains_symbol(found, SymbolId::GtkInit);
        let g_signal_emit_by_name = contains_symbol(found, SymbolId::GSignalEmitByName);
        let table = Symbols {
            g_main_loop_new,
            g_main_loop_run,
            g_main_loop_quit,
            g_object_ref,
            g_object_unref,
            g_object_ref_sink,
            g_signal_connect_data,
            g_signal_connect,
            gtk_window_new,
            gtk_window_set_title,
            gtk_button_new_with_label,
            gtk_label_new,
            gtk_label_set_text,
            gtk_label_get_text,
            gtk_box_new,
            gtk_box_append,
            gtk_box_pack_start,
            gtk_container_add,
            gtk_window_set_child,
            gtk_widget_show_all,
            gtk_window_present,
            gtk_init,
            g_signal_emit_by_name,
        };
        Ok(table)
    }
}

/// Whether `s` occurs in `found`.
fn contains_symbol(found: &Vec<SymbolId>, s: SymbolId) -> (r: bool)
    ensures
        r == found@.contains(s),
{
    let n = found.len();
    for i in 0..n
        invariant
            n == found@.len(),
            forall|j: int| 0 <= j < i ==> found@[j] != s,
    {
        if found[i] == s {
            return true;
        }
    }
    false
}

} // verus!
