//! The widget wrappers. Each operation decides, from the symbols that were
//! found, which C calls to make and with which arguments, and what to report
//! when a required entry point is missing. Performing the calls is left to
//! whoever owns the loaded libraries.
use vstd::prelude::*;

use crate::calls::{frees_handler_data, CallSpec, FfiCall};
use crate::error::Error;
use crate::signals::{clicked_signal, connect_clicked as connect_clicked_call, spec_connect_clicked};
use crate::symbols::{SymbolId, Symbols};

verus! {

/// Orientation of a box container.
#[derive(Clone, Copy, PartialEq, Eq, Structural, Debug)]
pub enum Orientation {
    Horizontal,
    Vertical,
}

impl Orientation {
    /// The GTK enum value of this orientation.
    pub open spec fn spec_value(self) -> i32 {
        match self {
            Orientation::Horizontal => 0,
            Orientation::Vertical => 1,
        }
    }

    /// The value handed to `gtk_box_new`.
    pub fn value(&self) -> (v: i32)
        ensures
            v == self.spec_value(),
    {
        match self {
            Orientation::Horizontal => 0,
            Orientation::Vertical => 1,
        }
    }
}

/// The `window_type` of a top-level window.
pub open spec fn toplevel_window_type() -> i32 {
    0
}

/// What a wrapper holds: the address of its GObject and the symbol table it
/// was created with.
pub struct WidgetState {
    pub handle: usize,
    pub symbols: Symbols,
}

/// Whether a text can be handed to C as a NUL-terminated string.
pub open spec fn is_c_text(text: Seq<char>) -> bool {
    !text.contains('\0')
}

/// Whether `text` can be handed to C as a NUL-terminated string, that is,
/// whether it holds no NUL character.
pub fn is_c_compatible(text: &str) -> (r: bool)
    ensures
        r == is_c_text(text@),
{
    broadcast use vstd::string::axiom_spec_iter;

    let mut clean = true;
    for ch in it: text.chars()
        invariant
            it.seq() == text@,
            clean == (forall|j: int| 0 <= j < it.index() ==> it.seq()[j] != '\0'),
    {
        if ch == '\0' {
            clean = false;
        }
    }
    clean
}

/// `e` reports that the entry point `s` is missing, by its C name.
pub open spec fn is_missing(e: Error, s: SymbolId) -> bool {
    e matches Error::MissingSymbol(name) && name@ == s.spec_c_name()
}

/// The error reporting that `s` is missing.
fn missing(s: SymbolId) -> (e: Error)
    ensures
        is_missing(e, s),
{
    Error::MissingSymbol(s.c_name().to_owned())
}

/// The outcome of a constructor step: the creating call when its entry point
/// was found, else the error naming the missing entry point.
pub open spec fn constructed(r: Result<FfiCall, Error>, symbols: Symbols, s: SymbolId, call: CallSpec) -> bool {
    &&& symbols.spec_has(s) ==> (r matches Ok(c) && c@ == call)
    &&& !symbols.spec_has(s) ==> (r matches Err(e) && is_missing(e, s))
}

/// The call that creates a box.
pub open spec fn spec_box_new_call(orientation: Orientation, spacing: i32) -> CallSpec {
    CallSpec::GtkBoxNew { orientation: orientation.spec_value(), spacing }
}

/// The call that creates a top-level window.
pub open spec fn spec_window_new_call() -> CallSpec {
    CallSpec::GtkWindowNew { window_type: toplevel_window_type() }
}

/// The call that creates a button with a label.
pub open spec fn spec_button_new_call(label: Seq<char>) -> CallSpec {
    CallSpec::GtkButtonNewWithLabel { label }
}

/// The call that creates a label with a text.
pub open spec fn spec_label_new_call(text: Seq<char>) -> CallSpec {
    CallSpec::GtkLabelNew { text }
}

/// Taking ownership of a freshly created (floating) object: sink its
/// reference when `g_object_ref_sink` was found, else add one with
/// `g_object_ref`, else nothing.
pub open spec fn spec_sink(symbols: Symbols, object: usize) -> Option<CallSpec> {
    if symbols.g_object_ref_sink {
        Some(CallSpec::GObjectRefSink { object })
    } else if symbols.g_object_ref {
        Some(CallSpec::GObjectRef { object })
    } else {
        None
    }
}

/// Giving up a wrapper's reference: `g_object_unref` when it was found.
pub open spec fn spec_release(symbols: Symbols, object: usize) -> Option<CallSpec> {
    if symbols.g_object_unref {
        Some(CallSpec::GObjectUnref { object })
    } else {
        None
    }
}

/// Taking one more reference for a copy of a wrapper: `g_object_ref` when it
/// was found.
pub open spec fn spec_add_ref(symbols: Symbols, object: usize) -> Option<CallSpec> {
    if symbols.g_object_ref {
        Some(CallSpec::GObjectRef { object })
    } else {
        None
    }
}

/// The call that takes ownership of a freshly created object.
pub fn sink_call(symbols: &Symbols, object: usize) -> (r: Option<FfiCall>)
    ensures
        r.deep_view() == spec_sink(*symbols, object),
{
    if symbols.g_object_ref_sink {
        Some(FfiCall::GObjectRefSink { object })
    } else if symbols.g_object_ref {
        Some(FfiCall::GObjectRef { object })
    } else {
        None
    }
}

/// The call that gives up a wrapper's reference.
pub fn release_call(symbols: &Symbols, object: usize) -> (r: Option<FfiCall>)
    ensures
        r.deep_view() == spec_release(*symbols, object),
{
    if symbols.g_object_unref {
        Some(FfiCall::GObjectUnref { object })
    } else {
        None
    }
}

/// The call that takes one more reference on an object.
fn add_ref_call(symbols: &Symbols, object: usize) -> (r: Option<FfiCall>)
    ensures
        r.deep_view() == spec_add_ref(*symbols, object),
{
    if symbols.g_object_ref {
        Some(FfiCall::GObjectRef { object })
    } else {
        None
    }
}

// ---------------------------------------------------------------- BoxWidget

/// A GTK box container.
pub struct BoxWidget {
    inner: usize,
    symbols: Symbols,
}

impl View for BoxWidget {
    type V = WidgetState;

    closed spec fn view(&self) -> WidgetState {
        WidgetState { handle: self.inner, symbols: self.symbols }
    }
}

/// Adding a child to a box: `gtk_box_append` (GTK 4) when found, else
/// `gtk_box_pack_start` with expand and fill set and no padding (GTK 3),
/// else nothing.
pub open spec fn spec_append(w: WidgetState, child: usize) -> Option<CallSpec> {
    if w.symbols.gtk_box_append {
        Some(CallSpec::GtkBoxAppend { container: w.handle, child })
    } else if w.symbols.gtk_box_pack_start {
        Some(
            CallSpec::GtkBoxPackStart { container: w.handle, child, expand: 1, fill: 1, padding: 0 },
        )
    } else {
        None
    }
}

impl BoxWidget {
    /// The call that creates the box, or the error when `gtk_box_new` is
    /// missing.
    pub fn new(symbols: Symbols, orientation: Orientation, spacing: i32) -> (r: Result<FfiCall, Error>)
        ensures
            constructed(r, symbols, SymbolId::GtkBoxNew, spec_box_new_call(orientation, spacing)),
    {
        if symbols.gtk_box_new {
            Ok(FfiCall::GtkBoxNew { orientation: orientation.value(), spacing })
        } else {
            Err(missing(SymbolId::GtkBoxNew))
        }
    }

    /// Wraps the box that the creating call returned, with the call that takes
    /// ownership of it.
    pub fn adopt(symbols: Symbols, inner: usize) -> (r: (BoxWidget, Option<FfiCall>))
        ensures
            r.0@ == (WidgetState { handle: inner, symbols }),
            r.1.deep_view() == spec_sink(symbols, inner),
    {
        (BoxWidget { inner, symbols }, sink_call(&symbols, inner))
    }

    /// The address of the wrapped object.
    pub fn handle(&self) -> (r: usize)
        ensures
            r == self@.handle,
    {
        self.inner
    }

    /// The call that adds `child` to the box, if any entry point for it was
    /// found.
    pub fn append(&self, child: usize) -> (r: Option<FfiCall>)
        ensures
            r.deep_view() == spec_append(self@, child),
    {
        if self.symbols.gtk_box_append {
            Some(FfiCall::GtkBoxAppend { container: self.inner, child })
        } else if self.symbols.gtk_box_pack_start {
            Some(
                FfiCall::GtkBoxPackStart {
                    container: self.inner,
                    child,
                    expand: 1,
                    fill: 1,
                    padding: 0,
                },
            )
        } else {
            None
        }
    }

    /// The call that gives up the box's reference when the wrapper goes away.
    pub fn release(&self) -> (r: Option<FfiCall>)
        ensures
            r.deep_view() == spec_release(self@.symbols, self@.handle),
    {
        release_call(&self.symbols, self.inner)
    }
}

// ---------------------------------------------------------------- Window

/// A GTK top-level window.
pub struct Window {
    inner: usize,
    symbols: Symbols,
}

impl View for Window {
    type V = WidgetState;

    closed spec fn view(&self) -> WidgetState {
        WidgetState { handle: self.inner, symbols: self.symbols }
    }
}

/// Setting a window's title: `gtk_window_set_title` when found.
pub open spec fn spec_set_title(w: WidgetState, title: Seq<char>) -> Option<CallSpec> {
    if w.symbols.gtk_window_set_title {
        Some(CallSpec::GtkWindowSetTitle { window: w.handle, title })
    } else {
        None
    }
}

/// Setting a window's child: `gtk_window_set_child` (GTK 4) when found, else
/// `gtk_container_add` (GTK 3), else nothing.
pub open spec fn spec_set_child(w: WidgetState, child: usize) -> Option<CallSpec> {
    if w.symbols.gtk_window_set_child {
        Some(CallSpec::GtkWindowSetChild { window: w.handle, child })
    } else if w.symbols.gtk_container_add {
        Some(CallSpec::GtkContainerAdd { container: w.handle, widget: child })
    } else {
        None
    }
}

/// Presenting a window: first `gtk_widget_show_all` when found, then
/// `gtk_window_present` when found.
pub open spec fn spec_present(w: WidgetState) -> Seq<CallSpec> {
    let show: Seq<CallSpec> = if w.symbols.gtk_widget_show_all {
        seq![CallSpec::GtkWidgetShowAll { widget: w.handle }]
    } else {
        seq![]
    };
    let present: Seq<CallSpec> = if w.symbols.gtk_window_present {
        seq![CallSpec::GtkWindowPresent { window: w.handle }]
    } else {
        seq![]
    };
    show + present
}

impl Window {
    /// The call that creates a top-level window, or the error when
    /// `gtk_window_new` is missing.
    pub fn new(symbols: Symbols) -> (r: Result<FfiCall, Error>)
        ensures
            constructed(r, symbols, SymbolId::GtkWindowNew, spec_window_new_call()),
    {
        if symbols.gtk_window_new {
            Ok(FfiCall::GtkWindowNew { window_type: 0 })
        } else {
            Err(missing(SymbolId::GtkWindowNew))
        }
    }

    /// Wraps the window that the creating call returned, with the call that
    /// takes ownership of it.
    pub fn adopt(symbols: Symbols, inner: usize) -> (r: (Window, Option<FfiCall>))
        ensures
            r.0@ == (WidgetState { handle: inner, symbols }),
            r.1.deep_view() == spec_sink(symbols, inner),
    {
        (Window { inner, symbols }, sink_call(&symbols, inner))
    }

    /// The address of the wrapped object.
    pub fn handle(&self) -> (r: usize)
        ensures
            r == self@.handle,
    {
        self.inner
    }

    /// The call that sets the window's title, if its entry point was found.
    pub fn set_title(&self, title: &str) -> (r: Option<FfiCall>)
        requires
            self@.symbols.gtk_window_set_title ==> is_c_text(title@),
        ensures
            r.deep_view() == spec_set_title(self@, title@),
    {
        if self.symbols.gtk_window_set_title {
            Some(FfiCall::GtkWindowSetTitle { window: self.inner, title: title.to_owned() })
        } else {
            None
        }
    }

    /// The call that makes `child` the window's content, if any entry point
    /// for it was found.
    pub fn set_child(&self, child: usize) -> (r: Option<FfiCall>)
        ensures
            r.deep_view() == spec_set_child(self@, child),
    {
        if self.symbols.gtk_window_set_child {
            Some(FfiCall::GtkWindowSetChild { window: self.inner, child })
        } else if self.symbols.gtk_container_add {
            Some(FfiCall::GtkContainerAdd { container: self.inner, widget: child })
        } else {
            None
        }
    }

    /// The calls that show the window and its children and present it, in
    /// order.
    pub fn present(&self) -> (r: Vec<FfiCall>)
        ensures
            r.deep_view() == spec_present(self@),
    {
        let mut calls: Vec<FfiCall> = Vec::new();
        if self.symbols.gtk_widget_show_all {
            calls.push(FfiCall::GtkWidgetShowAll { widget: self.inner });
        }
        if self.symbols.gtk_window_present {
            calls.push(FfiCall::GtkWindowPresent { window: self.inner });
        }
        assert(calls.deep_view() =~= spec_present(self@));
        calls
    }

    /// The call that gives up the window's reference when the wrapper goes
    /// away.
    pub fn release(&self) -> (r: Option<FfiCall>)
        ensures
            r.deep_view() == spec_release(self@.symbols, self@.handle),
    {
        release_call(&self.symbols, self.inner)
    }
}

// ---------------------------------------------------------------- Button

/// A GTK push button.
pub struct Button {
    inner: usize,
    symbols: Symbols,
}

impl View for Button {
    type V = WidgetState;

    closed spec fn view(&self) -> WidgetState {
        WidgetState { handle: self.inner, symbols: self.symbols }
    }
}

/// Emitting "clicked" on a button: `g_signal_emit_by_name` when found, else
/// the error naming it.
pub open spec fn spec_emit_clicked(w: WidgetState, r: Result<FfiCall, Error>) -> bool {
    constructed(
        r,
        w.symbols,
        SymbolId::GSignalEmitByName,
        CallSpec::GSignalEmitByName { instance: w.handle, signal: clicked_signal() },
    )
}

impl Button {
    /// The call that creates a button with the given label, or the error when
    /// `gtk_button_new_with_label` is missing.
    pub fn with_label(symbols: Symbols, label: &str) -> (r: Result<FfiCall, Error>)
        requires
            symbols.gtk_button_new_with_label ==> is_c_text(label@),
        ensures
            constructed(
                r,
                symbols,
                SymbolId::GtkButtonNewWithLabel,
                spec_button_new_call(label@),
            ),
    {
        if symbols.gtk_button_new_with_label {
            Ok(FfiCall::GtkButtonNewWithLabel { label: label.to_owned() })
        } else {
            Err(missing(SymbolId::GtkButtonNewWithLabel))
        }
    }

    /// Wraps the button that the creating call returned, with the call that
    /// takes ownership of it.
    pub fn adopt(symbols: Symbols, inner: usize) -> (r: (Button, Option<FfiCall>))
        ensures
            r.0@ == (WidgetState { handle: inner, symbols }),
            r.1.deep_view() == spec_sink(symbols, inner),
    {
        (Button { inner, symbols }, sink_call(&symbols, inner))
    }

    /// The address of the wrapped object.
    pub fn handle(&self) -> (r: usize)
        ensures
            r == self@.handle,
    {
        self.inner
    }

    /// The call that connects a handler to the button's "clicked" signal, or
    /// the error when no connect entry point was found.
    pub fn connect_clicked(&self) -> (r: Result<FfiCall, Error>)
        ensures
            r matches Ok(c) ==> spec_connect_clicked(self@.symbols, self@.handle) == Ok::<
                CallSpec,
                Seq<char>,
            >(c@),
            r matches Err(e) ==> (e matches Error::Other(m) && spec_connect_clicked(
                self@.symbols,
                self@.handle,
            ) == Err::<CallSpec, Seq<char>>(m@)),
            r matches Ok(c) ==> (frees_handler_data(c@) <==> self@.symbols.g_signal_connect_data),
    {
        match connect_clicked_call(&self.symbols, self.inner) {
            Ok(c) => Ok(c),
            Err(e) => Err(Error::Other(e)),
        }
    }

    /// The call that emits "clicked" on the button, or the error when
    /// `g_signal_emit_by_name` is missing.
    pub fn emit_clicked(&self) -> (r: Result<FfiCall, Error>)
        ensures
            spec_emit_clicked(self@, r),
    {
        proof {
            reveal_strlit("clicked");
        }
        if self.symbols.g_signal_emit_by_name {
            Ok(FfiCall::GSignalEmitByName { instance: self.inner, signal: "clicked".to_owned() })
        } else {
            Err(missing(SymbolId::GSignalEmitByName))
        }
    }

    /// The call that gives up the button's reference when the wrapper goes
    /// away.
    pub fn release(&self) -> (r: Option<FfiCall>)
        ensures
            r.deep_view() == spec_release(self@.symbols, self@.handle),
    {
        release_call(&self.symbols, self.inner)
    }
}

// ---------------------------------------------------------------- Label

/// A GTK text label.
pub struct Label {
    inner: usize,
    symbols: Symbols,
}

impl View for Label {
    type V = WidgetState;

    closed spec fn view(&self) -> WidgetState {
        WidgetState { handle: self.inner, symbols: self.symbols }
    }
}

/// Setting a label's text: `gtk_label_set_text` when found.
pub open spec fn spec_set_text(w: WidgetState, text: Seq<char>) -> Option<CallSpec> {
    if w.symbols.gtk_label_set_text {
        Some(CallSpec::GtkLabelSetText { label: w.handle, text })
    } else {
        None
    }
}

/// Reading a label's text: `gtk_label_get_text` when found.
pub open spec fn spec_get_text(w: WidgetState) -> Option<CallSpec> {
    if w.symbols.gtk_label_get_text {
        Some(CallSpec::GtkLabelGetText { label: w.handle })
    } else {
        None
    }
}

/// The characters that replacement-decoding the bytes as UTF-8 yields.
pub uninterp spec fn lossy_utf8(bytes: Seq<u8>) -> Seq<char>;

/// Decodes bytes as UTF-8, replacing each invalid sequence with U+FFFD.
///
/// Trusted: calls `String::from_utf8_lossy` and takes ownership of the
/// result. The contract says the result is a function of the bytes alone
/// (`lossy_utf8`) and, as the documentation of `from_utf8_lossy` states, that
/// bytes which are valid UTF-8 decode to exactly the string they encode. What
/// invalid sequences are replaced with is left unsaid.
#[verifier::external_body]
fn utf8_lossy(bytes: &[u8]) -> (r: String)
    ensures
        r@ == lossy_utf8(bytes@),
        vstd::utf8::valid_utf8(bytes@) ==> r@ == vstd::utf8::decode_utf8(bytes@),
{
    String::from_utf8_lossy(bytes).into_owned()
}

impl Label {
    /// The call that creates a label with the given text, or the error when
    /// `gtk_label_new` is missing.
    pub fn new(symbols: Symbols, text: &str) -> (r: Result<FfiCall, Error>)
        requires
            symbols.gtk_label_new ==> is_c_text(text@),
        ensures
            constructed(r, symbols, SymbolId::GtkLabelNew, spec_label_new_call(text@)),
    {
        if symbols.gtk_label_new {
            Ok(FfiCall::GtkLabelNew { text: text.to_owned() })
        } else {
            Err(missing(SymbolId::GtkLabelNew))
        }
    }

    /// Wraps the label that the creating call returned, with the call that
    /// takes ownership of it.
    pub fn adopt(symbols: Symbols, inner: usize) -> (r: (Label, Option<FfiCall>))
        ensures
            r.0@ == (WidgetState { handle: inner, symbols }),
            r.1.deep_view() == spec_sink(symbols, inner),
    {
        (Label { inner, symbols }, sink_call(&symbols, inner))
    }

    /// The address of the wrapped object.
    pub fn handle(&self) -> (r: usize)
        ensures
            r == self@.handle,
    {
        self.inner
    }

    /// The call that sets the label's text, if its entry point was found.
    pub fn set_text(&self, text: &str) -> (r: Option<FfiCall>)
        requires
            self@.symbols.gtk_label_set_text ==> is_c_text(text@),
        ensures
            r.deep_view() == spec_set_text(self@, text@),
    {
        if self.symbols.gtk_label_set_text {
            Some(FfiCall::GtkLabelSetText { label: self.inner, text: text.to_owned() })
        } else {
            None
        }
    }

    /// The call that reads the label's text, if its entry point was found;
    /// when it was not, the text is unknown (`None`).
    pub fn get_text(&self) -> (r: Option<FfiCall>)
        ensures
            r.deep_view() == spec_get_text(self@),
    {
        if self.symbols.gtk_label_get_text {
            Some(FfiCall::GtkLabelGetText { label: self.inner })
        } else {
            None
        }
    }

    /// The text that `gtk_label_get_text` returned: `None` for a null
    /// pointer, else the bytes before the terminating NUL, decoded as UTF-8
    /// with invalid sequences replaced.
    pub fn decode_text(raw: Option<&[u8]>) -> (r: Option<String>)
        ensures
            raw is None ==> r is None,
            raw matches Some(b) ==> (r matches Some(s) && s@ == lossy_utf8(b@)),
            raw matches Some(b) ==> (vstd::utf8::valid_utf8(b@) ==> (r matches Some(s)
                && s@ == vstd::utf8::decode_utf8(b@))),
    {
        match raw {
            None => None,
            Some(bytes) => Some(utf8_lossy(bytes)),
        }
    }

    /// A second wrapper of the same label, with the call that takes the
    /// reference it owns.
    pub fn clone_handle(&self) -> (r: (Label, Option<FfiCall>))
        ensures
            r.0@ == self@,
            r.1.deep_view() == spec_add_ref(self@.symbols, self@.handle),
    {
        (Label { inner: self.inner, symbols: self.symbols }, add_ref_call(&self.symbols, self.inner))
    }

    /// The call that gives up the label's reference when the wrapper goes
    /// away.
    pub fn release(&self) -> (r: Option<FfiCall>)
        ensures
            r.deep_view() == spec_release(self@.symbols, self@.handle),
    {
        release_call(&self.symbols, self.inner)
    }
}

// ---------------------------------------------------------------- Application

/// The application: runs the GLib main loop.
pub struct Application {
    inner: usize,
    symbols: Symbols,
}

impl View for Application {
    type V = WidgetState;

    closed spec fn view(&self) -> WidgetState {
        WidgetState { handle: self.inner, symbols: self.symbols }
    }
}

/// Running the application: both `g_main_loop_new` and `g_main_loop_run`
/// must have been found (the first missing one is reported); then a main
/// loop is created on the default context, not yet running.
pub open spec fn spec_run(symbols: Symbols, r: Result<FfiCall, Error>) -> bool {
    &&& !symbols.g_main_loop_new ==> (r matches Err(e) && is_missing(e, SymbolId::GMainLoopNew))
    &&& (symbols.g_main_loop_new && !symbols.g_main_loop_run) ==> (r matches Err(e) && is_missing(
        e,
        SymbolId::GMainLoopRun,
    ))
    &&& (symbols.g_main_loop_new && symbols.g_main_loop_run) ==> (r matches Ok(c) && c@
        == CallSpec::GMainLoopNew { context: 0, is_running: 0 })
}

impl Application {
    /// A new application. It holds no GTK object: the identifier is not used.
    pub fn new(symbols: Symbols, id: Option<&str>) -> (r: Result<Application, Error>)
        ensures
            r matches Ok(a) && a@ == (WidgetState { handle: 0, symbols }),
    {
        Ok(Application { inner: 0, symbols })
    }

    /// The call that creates the main loop, or the error naming the first of
    /// `g_main_loop_new` and `g_main_loop_run` that is missing. The loop it
    /// returns is then run with [`run_main_loop`].
    pub fn run(self) -> (r: Result<FfiCall, Error>)
        ensures
            spec_run(self@.symbols, r),
    {
        if !self.symbols.g_main_loop_new {
            return Err(missing(SymbolId::GMainLoopNew));
        }
        if !self.symbols.g_main_loop_run {
            return Err(missing(SymbolId::GMainLoopRun));
        }
        Ok(FfiCall::GMainLoopNew { context: 0, is_running: 0 })
    }
}

/// The call that runs the main loop created by [`Application::run`].
pub fn run_main_loop(main_loop: usize) -> (r: FfiCall)
    ensures
        r@ == (CallSpec::GMainLoopRun { main_loop }),
{
    FfiCall::GMainLoopRun { main_loop }
}

} // verus!
