use caoi::stream::ElementStream;

#[test]
fn peek_repeats_until_consume() {
    let mut stream = ElementStream::new(vec![10u32, 20, 30]);
    assert_eq!(stream.peek(), Some(10));
    assert_eq!(stream.peek(), Some(10));
    assert_eq!(stream.peek(), Some(10));
    assert_eq!(stream.index, 0);
    assert_eq!(stream.consume(), Some(10));
    assert_eq!(stream.peek(), Some(20));
    assert_eq!(stream.peek(), Some(20));
    assert_eq!(stream.index, 1);
}

#[test]
fn consume_hands_out_elements_in_order() {
    let mut stream = ElementStream::new(vec!['a', 'b']);
    assert_eq!(stream.position(), 0);
    assert_eq!(stream.consume(), Some('a'));
    assert_eq!(stream.position(), 1);
    assert_eq!(stream.consume(), Some('b'));
    assert_eq!(stream.position(), 2);
}

#[test]
fn exhausted_stream_stays_at_end() {
    let mut stream = ElementStream::new(vec![1u8]);
    assert_eq!(stream.consume(), Some(1));
    assert_eq!(stream.peek(), None);
    assert_eq!(stream.consume(), None);
    assert_eq!(stream.consume(), None);
    assert_eq!(stream.index, 1);
}

#[test]
fn empty_stream_has_nothing() {
    let mut stream: ElementStream<String> = ElementStream::new(vec![]);
    assert_eq!(stream.peek(), None);
    assert_eq!(stream.consume(), None);
    assert_eq!(stream.index, 0);
}

#[test]
fn position_beyond_end_means_nothing_left() {
    let mut stream = ElementStream::new(vec![1u32, 2]);
    stream.index = 7;
    assert_eq!(stream.peek(), None);
    assert_eq!(stream.consume(), None);
    assert_eq!(stream.index, 7);
}

#[test]
fn stream_clones_strings() {
    let mut stream = ElementStream::new(vec![String::from("one"), String::from("two")]);
    assert_eq!(stream.peek(), Some(String::from("one")));
    assert_eq!(stream.consume(), Some(String::from("one")));
    assert_eq!(stream.consume(), Some(String::from("two")));
    assert_eq!(stream.consume(), None);
}
