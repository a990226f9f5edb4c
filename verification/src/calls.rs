//! The C calls the wrappers decide on. A value of [`FfiCall`] names one entry
//! point of the symbol table and the plain arguments to hand it; the caller
//! that owns the loaded libraries performs it.
use vstd::prelude::*;

use crate::symbols::{SymbolId, Symbols};

verus! {

/// One call into GLib, GObject or GTK. Object handles are addresses; strings
/// are handed over as C strings by whoever performs the call.
#[derive(Debug, PartialEq, Eq)]
pub enum FfiCall {
    GMainLoopNew { context: usize, is_running: i32 },
    GMainLoopRun { main_loop: usize },
    GObjectRef { object: usize },
    GObjectUnref { object: usize },
    GObjectRefSink { object: usize },
    /// `destroy_notify`: whether to register the notify that frees the
    /// handler's data when the handler is disconnected.
    GSignalConnectData { instance: usize, signal: String, connect_flags: u32, destroy_notify: bool },
    GSignalConnect { instance: usize, signal: String },
    GSignalEmitByName { instance: usize, signal: String },
    GtkWindowNew { window_type: i32 },
    GtkWindowSetTitle { window: usize, title: String },
    GtkButtonNewWithLabel { label: String },
    GtkLabelNew { text: String },
    GtkLabelSetText { label: usize, text: String },
    GtkLabelGetText { label: usize },
    GtkBoxNew { orientation: i32, spacing: i32 },
    GtkBoxAppend { container: usize, child: usize },
    GtkBoxPackStart { container: usize, child: usize, expand: i32, fill: i32, padding: u32 },
    GtkContainerAdd { container: usize, widget: usize },
    GtkWindowSetChild { window: usize, child: usize },
    GtkWidgetShowAll { widget: usize },
    GtkWindowPresent { window: usize },
}

/// The mathematical value of an [`FfiCall`]: the same call, with its strings
/// taken as character sequences.
pub enum CallSpec {
    GMainLoopNew { context: usize, is_running: i32 },
    GMainLoopRun { main_loop: usize },
    GObjectRef { object: usize },
    GObjectUnref { object: usize },
    GObjectRefSink { object: usize },
    GSignalConnectData { instance: usize, signal: Seq<char>, connect_flags: u32, destroy_notify: bool },
    GSignalConnect { instance: usize, signal: Seq<char> },
    GSignalEmitByName { instance: usize, signal: Seq<char> },
    GtkWindowNew { window_type: i32 },
    GtkWindowSetTitle { window: usize, title: Seq<char> },
    GtkButtonNewWithLabel { label: Seq<char> },
    GtkLabelNew { text: Seq<char> },
    GtkLabelSetText { label: usize, text: Seq<char> },
    GtkLabelGetText { label: usize },
    GtkBoxNew { orientation: i32, spacing: i32 },
    GtkBoxAppend { container: usize, child: usize },
    GtkBoxPackStart { container: usize, child: usize, expand: i32, fill: i32, padding: u32 },
    GtkContainerAdd { container: usize, widget: usize },
    GtkWindowSetChild { window: usize, child: usize },
    GtkWidgetShowAll { widget: usize },
    GtkWindowPresent { window: usize },
}

impl View for FfiCall {
    type V = CallSpec;

    open spec fn view(&self) -> CallSpec {
        match self {
            FfiCall::GMainLoopNew { context, is_running } => CallSpec::GMainLoopNew { context: *context, is_running: *is_running },
            FfiCall::GMainLoopRun { main_loop } => CallSpec::GMainLoopRun { main_loop: *main_loop },
            FfiCall::GObjectRef { object } => CallSpec::GObjectRef { object: *object },
            FfiCall::GObjectUnref { object } => CallSpec::GObjectUnref { object: *object },
            FfiCall::GObjectRefSink { object } => CallSpec::GObjectRefSink { object: *object },
            FfiCall::GSignalConnectData { instance, signal, connect_flags, destroy_notify } => CallSpec::GSignalConnectData { instance: *instance, signal: signal@, connect_flags: *connect_flags, destroy_notify: *destroy_notify },
            FfiCall::GSignalConnect { instance, signal } => CallSpec::GSignalConnect { instance: *instance, signal: signal@ },
            FfiCall::GSignalEmitByName { instance, signal } => CallSpec::GSignalEmitByName { instance: *instance, signal: signal@ },
            FfiCall::GtkWindowNew { window_type } => CallSpec::GtkWindowNew { window_type: *window_type },
            FfiCall::GtkWindowSetTitle { window, title } => CallSpec::GtkWindowSetTitle { window: *window, title: title@ },
            FfiCall::GtkButtonNewWithLabel { label } => CallSpec::GtkButtonNewWithLabel { label: label@ },
            FfiCall::GtkLabelNew { text } => CallSpec::GtkLabelNew { text: text@ },
            FfiCall::GtkLabelSetText { label, text } => CallSpec::GtkLabelSetText { label: *label, text: text@ },
            FfiCall::GtkLabelGetText { label } => CallSpec::GtkLabelGetText { label: *label },
            FfiCall::GtkBoxNew { orientation, spacing } => CallSpec::GtkBoxNew { orientation: *orientation, spacing: *spacing },
            FfiCall::GtkBoxAppend { container, child } => CallSpec::GtkBoxAppend { container: *container, child: *child },
            FfiCall::GtkBoxPackStart { container, child, expand, fill, padding } => CallSpec::GtkBoxPackStart { container: *container, child: *child, expand: *expand, fill: *fill, padding: *padding },
            FfiCall::GtkContainerAdd { container, widget } => CallSpec::GtkContainerAdd { container: *container, widget: *widget },
            FfiCall::GtkWindowSetChild { window, child } => CallSpec::GtkWindowSetChild { window: *window, child: *child },
            FfiCall::GtkWidgetShowAll { widget } => CallSpec::GtkWidgetShowAll { widget: *widget },
            FfiCall::GtkWindowPresent { window } => CallSpec::GtkWindowPresent { window: *window },
        }
    }
}

impl DeepView for FfiCall {
    type V = CallSpec;

    open spec fn deep_view(&self) -> CallSpec {
        self@
    }
}

impl CallSpec {
    /// The entry point the call goes through.
    pub open spec fn symbol(self) -> SymbolId {
        match self {
            CallSpec::GMainLoopNew { .. } => SymbolId::GMainLoopNew,
            CallSpec::GMainLoopRun { .. } => SymbolId::GMainLoopRun,
            CallSpec::GObjectRef { .. } => SymbolId::GObjectRef,
            CallSpec::GObjectUnref { .. } => SymbolId::GObjectUnref,
            CallSpec::GObjectRefSink { .. } => SymbolId::GObjectRefSink,
            CallSpec::GSignalConnectData { .. } => SymbolId::GSignalConnectData,
            CallSpec::GSignalConnect { .. } => SymbolId::GSignalConnect,
            CallSpec::GSignalEmitByName { .. } => SymbolId::GSignalEmitByName,
            CallSpec::GtkWindowNew { .. } => SymbolId::GtkWindowNew,
            CallSpec::GtkWindowSetTitle { .. } => SymbolId::GtkWindowSetTitle,
            CallSpec::GtkButtonNewWithLabel { .. } => SymbolId::GtkButtonNewWithLabel,
            CallSpec::GtkLabelNew { .. } => SymbolId::GtkLabelNew,
            CallSpec::GtkLabelSetText { .. } => SymbolId::GtkLabelSetText,
            CallSpec::GtkLabelGetText { .. } => SymbolId::GtkLabelGetText,
            CallSpec::GtkBoxNew { .. } => SymbolId::GtkBoxNew,
            CallSpec::GtkBoxAppend { .. } => SymbolId::GtkBoxAppend,
            CallSpec::GtkBoxPackStart { .. } => SymbolId::GtkBoxPackStart,
            CallSpec::GtkContainerAdd { .. } => SymbolId::GtkContainerAdd,
            CallSpec::GtkWindowSetChild { .. } => SymbolId::GtkWindowSetChild,
            CallSpec::GtkWidgetShowAll { .. } => SymbolId::GtkWidgetShowAll,
            CallSpec::GtkWindowPresent { .. } => SymbolId::GtkWindowPresent,
        }
    }
}

impl FfiCall {
    /// The entry point the call goes through.
    pub fn symbol(&self) -> (r: SymbolId)
        ensures
            r == self@.symbol(),
    {
        match self {
            FfiCall::GMainLoopNew { .. } => SymbolId::GMainLoopNew,
            FfiCall::GMainLoopRun { .. } => SymbolId::GMainLoopRun,
            FfiCall::GObjectRef { .. } => SymbolId::GObjectRef,
            FfiCall::GObjectUnref { .. } => SymbolId::GObjectUnref,
            FfiCall::GObjectRefSink { .. } => SymbolId::GObjectRefSink,
            FfiCall::GSignalConnectData { .. } => SymbolId::GSignalConnectData,
            FfiCall::GSignalConnect { .. } => SymbolId::GSignalConnect,
            FfiCall::GSignalEmitByName { .. } => SymbolId::GSignalEmitByName,
            FfiCall::GtkWindowNew { .. } => SymbolId::GtkWindowNew,
            FfiCall::GtkWindowSetTitle { .. } => SymbolId::GtkWindowSetTitle,
            FfiCall::GtkButtonNewWithLabel { .. } => SymbolId::GtkButtonNewWithLabel,
            FfiCall::GtkLabelNew { .. } => SymbolId::GtkLabelNew,
            FfiCall::GtkLabelSetText { .. } => SymbolId::GtkLabelSetText,
            FfiCall::GtkLabelGetText { .. } => SymbolId::GtkLabelGetText,
            FfiCall::GtkBoxNew { .. } => SymbolId::GtkBoxNew,
            FfiCall::GtkBoxAppend { .. } => SymbolId::GtkBoxAppend,
            FfiCall::GtkBoxPackStart { .. } => SymbolId::GtkBoxPackStart,
            FfiCall::GtkContainerAdd { .. } => SymbolId::GtkContainerAdd,
            FfiCall::GtkWindowSetChild { .. } => SymbolId::GtkWindowSetChild,
            FfiCall::GtkWidgetShowAll { .. } => SymbolId::GtkWidgetShowAll,
            FfiCall::GtkWindowPresent { .. } => SymbolId::GtkWindowPresent,
        }
    }
}

/// Whether performing the call registers a destroy notify that frees the
/// handler's data once the handler is disconnected. Only `g_signal_connect_data`
/// takes one; `g_signal_connect` has no place for it, so the data is never
/// freed.
pub open spec fn frees_handler_data(call: CallSpec) -> bool {
    call matches CallSpec::GSignalConnectData { destroy_notify: true, .. }
}

/// Every call of the sequence goes through an entry point that was found.
pub open spec fn all_available(symbols: Symbols, calls: Seq<CallSpec>) -> bool {
    forall|i: int| 0 <= i < calls.len() ==> symbols.spec_has(#[trigger] calls[i].symbol())
}

/// The call, if any, goes through an entry point that was found.
pub open spec fn option_available(symbols: Symbols, call: Option<CallSpec>) -> bool {
    call matches Some(c) ==> symbols.spec_has(c.symbol())
}

} // verus!
