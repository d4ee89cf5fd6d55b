use brengin::oneshot::OneShot;

#[test]
fn oneshot_delivers_one_value() {
    let mut ch: OneShot<u32> = OneShot::default();
    assert!(!ch.is_ready());
    assert!(!ch.is_used());
    assert_eq!(ch.try_receive(), None);
    ch.send(7);
    assert!(ch.is_ready());
    assert_eq!(ch.try_receive(), Some(7));
    assert!(!ch.is_ready());
    assert_eq!(ch.try_receive(), None);
}

#[test]
fn oneshot_receive_takes_the_value() {
    let mut ch: OneShot<String> = OneShot::default();
    ch.send("done".to_string());
    assert_eq!(ch.receive(), "done");
    assert!(!ch.is_ready());
    // single use: the channel stays used after its value was received
    assert!(ch.is_used());
}
