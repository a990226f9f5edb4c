//! Connecting a handler to a widget's "clicked" signal.
use vstd::prelude::*;

use crate::calls::{frees_handler_data, CallSpec, FfiCall};
use crate::symbols::Symbols;

verus! {

/// The name of the signal that buttons emit when clicked.
pub open spec fn clicked_signal() -> Seq<char> {
    "clicked"@
}

/// The message returned when neither connect entry point was found.
pub open spec fn no_connect_message() -> Seq<char> {
    "no g_signal_connect available"@
}

/// What connecting a "clicked" handler to `instance` amounts to.
pub open spec fn spec_connect_clicked(symbols: Symbols, instance: usize) -> Result<CallSpec, Seq<char>> {
    if symbols.g_signal_connect_data {
        Ok(
            CallSpec::GSignalConnectData {
                instance,
                signal: clicked_signal(),
                connect_flags: 0,
                destroy_notify: true,
            },
        )
    } else if symbols.g_signal_connect {
        Ok(CallSpec::GSignalConnect { instance, signal: clicked_signal() })
    } else {
        Err(no_connect_message())
    }
}

/// The call that connects a "clicked" handler to `instance`:
/// `g_signal_connect_data` with a destroy notify that frees the handler's data
/// when it was found, else `g_signal_connect` (no destroy notify: the data is
/// never freed), else an error message. The handler and its data are
/// supplied by whoever performs the call.
pub fn connect_clicked(symbols: &Symbols, instance: usize) -> (r: Result<FfiCall, String>)
    ensures
        r matches Ok(c) ==> spec_connect_clicked(*symbols, instance) == Ok::<CallSpec, Seq<char>>(c@),
        r matches Err(e) ==> spec_connect_clicked(*symbols, instance) == Err::<CallSpec, Seq<char>>(e@),
        r matches Ok(c) ==> (frees_handler_data(c@) <==> symbols.g_signal_connect_data),
{
    proof {
        reveal_strlit("clicked");
        reveal_strlit("no g_signal_connect available");
    }
    if symbols.g_signal_connect_data {
        Ok(
            FfiCall::GSignalConnectData {
                instance,
                signal: "clicked".to_owned(),
                connect_flags: 0,
                destroy_notify: true,
            },
        )
    } else if symbols.g_signal_connect {
        Ok(FfiCall::GSignalConnect { instance, signal: "clicked".to_owned() })
    } else {
        Err("no g_signal_connect available".to_owned())
    }
}

} // verus!
