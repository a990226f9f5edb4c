use gtk_compat::{all_symbols, BoxWidget, Button, FfiCall, Label, SymbolId, Symbols, Window};

fn every_subset_sample() -> Vec<Symbols> {
    let all = all_symbols();
    let mut tables = vec![Symbols::empty(), Symbols::load(&all).unwrap()];
    for skip in 0..all.len() {
        let found: Vec<SymbolId> = all.iter().copied().enumerate().filter(|(i, _)| i % 3 != skip % 3 && *i != skip).map(|(_, s)| s).collect();
        tables.push(Symbols::load(&found).unwrap());
    }
    tables
}

fn available(t: &Symbols, c: &FfiCall) -> bool {
    t.has(c.symbol())
}

#[test]
fn calls_use_found_symbols() {
    for t in every_subset_sample() {
        let (b, sink) = BoxWidget::adopt(t, 1);
        assert!(sink.iter().all(|c| available(&t, c)));
        assert!(b.append(2).iter().all(|c| available(&t, c)));
        assert!(b.release().iter().all(|c| available(&t, c)));
        let (w, _) = Window::adopt(t, 1);
        assert!(w.set_title("t").iter().all(|c| available(&t, c)));
        assert!(w.set_child(2).iter().all(|c| available(&t, c)));
        assert!(w.present().iter().all(|c| available(&t, c)));
        let (bt, _) = Button::adopt(t, 1);
        assert!(bt.connect_clicked().iter().all(|c| available(&t, c)));
        assert!(bt.emit_clicked().iter().all(|c| available(&t, c)));
        let (l, _) = Label::adopt(t, 1);
        assert!(l.set_text("t").iter().all(|c| available(&t, c)));
        assert!(l.get_text().iter().all(|c| available(&t, c)));
        assert!(l.clone_handle().1.iter().all(|c| available(&t, c)));
    }
}

#[test]
fn constructors_fail_only_on_missing_symbol() {
    for t in every_subset_sample() {
        assert_eq!(Window::new(t).is_ok(), t.has(SymbolId::GtkWindowNew));
        assert_eq!(Button::with_label(t, "b").is_ok(), t.has(SymbolId::GtkButtonNewWithLabel));
        assert_eq!(Label::new(t, "l").is_ok(), t.has(SymbolId::GtkLabelNew));
        assert_eq!(
            BoxWidget::new(t, gtk_compat::Orientation::Horizontal, 0).is_ok(),
            t.has(SymbolId::GtkBoxNew)
        );
    }
}

#[test]
fn copy_release_balance() {
    let t = Symbols::load(&vec![SymbolId::GObjectRef, SymbolId::GObjectUnref]).unwrap();
    let (l, _) = Label::adopt(t, 77);
    let (copy, add) = l.clone_handle();
    assert_eq!(add, Some(FfiCall::GObjectRef { object: 77 }));
    assert_eq!(copy.release(), Some(FfiCall::GObjectUnref { object: 77 }));
}

#[test]
fn sink_takes_one_reference() {
    let t = Symbols::load(&vec![SymbolId::GObjectRef, SymbolId::GObjectRefSink]).unwrap();
    assert_eq!(gtk_compat::wrappers::sink_call(&t, 4), Some(FfiCall::GObjectRefSink { object: 4 }));
    assert_eq!(gtk_compat::wrappers::sink_call(&Symbols::empty(), 4), None);
}

#[test]
fn references_balance_over_copies_and_releases() {
    let t = Symbols::load(&vec![SymbolId::GObjectRef, SymbolId::GObjectUnref, SymbolId::GObjectRefSink]).unwrap();
    let count = |calls: &[FfiCall]| -> (i64, i64) {
        let taken = calls
            .iter()
            .filter(|c| matches!(c, FfiCall::GObjectRef { object: 9 } | FfiCall::GObjectRefSink { object: 9 }))
            .count() as i64;
        let dropped = calls.iter().filter(|c| matches!(c, FfiCall::GObjectUnref { object: 9 })).count() as i64;
        (taken, dropped)
    };
    let mut calls: Vec<FfiCall> = Vec::new();
    let (l, sink) = Label::adopt(t, 9);
    calls.extend(sink);
    let mut alive = vec![l];
    for _ in 0..3 {
        let (copy, add) = alive[alive.len() - 1].clone_handle();
        calls.extend(add);
        alive.push(copy);
    }
    while let Some(w) = alive.pop() {
        let (taken, dropped) = count(&calls);
        assert!(dropped < taken);
        assert_eq!(taken - dropped, alive.len() as i64 + 1);
        calls.extend(w.release());
    }
    let (taken, dropped) = count(&calls);
    assert_eq!(taken, 4);
    assert_eq!(dropped, 4);
}
