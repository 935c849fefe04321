use workflow_core::bitrigger::BiTrigger;
use workflow_core::enums::TryFromError;

#[test]
fn bitrigger_pairs_are_independent() {
    let bt = BiTrigger::new();
    assert!(!bt.request.listener.get().is_triggered());
    assert!(!bt.response.listener.get().is_triggered());
    bt.request.trigger.get().trigger();
    assert!(bt.request.listener.get().is_triggered());
    assert!(!bt.response.listener.get().is_triggered());
    let copy = bt.clone();
    copy.response.trigger.get().trigger();
    assert!(bt.response.listener.get().is_triggered());
}

#[test]
fn try_from_error_names_the_enum() {
    let e = TryFromError::u16("Color", 9);
    assert_eq!(format!("{:?}", e), "u16(\"Color\", 9)");
    let e = TryFromError::usize("Mode", 3).clone();
    assert!(matches!(e, TryFromError::usize("Mode", 3)));
}
