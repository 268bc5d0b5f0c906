use decklink::Error;

#[test]
fn errors_read_as_sentences() {
    let say = |e: Error| e.message();
    assert_eq!(
        say(Error::DeviceNotFound("Quad".to_string())),
        "decklink device not found: Quad"
    );
    assert_eq!(say(Error::OpenFailed("x".to_string())), "decklink open failed: x");
    assert_eq!(say(Error::NoSignal("Quad".to_string())), "no SDI frames from Quad");
    assert_eq!(say(Error::Io("x".to_string())), "decklink i/o error: x");
    assert_eq!(say(Error::Unsupported("x".to_string())), "unsupported: x");
    assert_eq!(say(Error::Busy), "playout busy: scheduled-frame queue full");
    assert_eq!(
        say(Error::TimeNotMonotonic("x".to_string())),
        "playout time not monotonic: x"
    );
    assert_eq!(say(Error::Eof), "decklink stream ended");
}
