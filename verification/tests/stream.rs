use select_stream::stream::StreamState;

#[test]
fn growing_values_emit_only_their_suffixes() {
    // ["Hi", "Hi there", "Hi there!"] emits "Hi", " there", "!".
    let mut s = StreamState::new();
    let e1 = s.next_emission(b"Hi".to_vec());
    let e2 = s.next_emission(b"Hi there".to_vec());
    let e3 = s.next_emission(b"Hi there!".to_vec());
    assert_eq!(e1, b"Hi".to_vec());
    assert_eq!(e2, b" there".to_vec());
    assert_eq!(e3, b"!".to_vec());
    assert_eq!(s.content, b"Hi there!".to_vec());
}

#[test]
fn non_prefix_value_is_emitted_whole() {
    // ["Hi there", "Bye"] emits "Hi there", then the full replacement "Bye".
    let mut s = StreamState::new();
    let e1 = s.next_emission(b"Hi there".to_vec());
    let e2 = s.next_emission(b"Bye".to_vec());
    assert_eq!(e1, b"Hi there".to_vec());
    assert_eq!(e2, b"Bye".to_vec());
    assert_eq!(s.content, b"Bye".to_vec());
}

#[test]
fn first_value_on_fresh_stream_is_emitted_whole() {
    let mut s = StreamState::new();
    let e = s.next_emission(b"whole".to_vec());
    assert_eq!(e, b"whole".to_vec());
}

#[test]
fn repeated_value_emits_nothing_new() {
    let mut s = StreamState::new();
    let _ = s.next_emission(b"same".to_vec());
    let e = s.next_emission(b"same".to_vec());
    assert_eq!(e, Vec::<u8>::new());
    assert_eq!(s.content, b"same".to_vec());
}

#[test]
fn shrinking_value_is_a_reset() {
    let mut s = StreamState::new();
    let _ = s.next_emission(b"longer text".to_vec());
    let e = s.next_emission(b"longer".to_vec());
    // "longer text" is not a prefix of "longer": full replacement.
    assert_eq!(e, b"longer".to_vec());
    assert_eq!(s.content, b"longer".to_vec());
}

#[test]
fn draining_a_queue_emits_in_arrival_order() {
    let mut s = StreamState::new();
    let queue = vec![
        b"Hi".to_vec(),
        b"Hi there".to_vec(),
        b"Hi there!".to_vec(),
        b"Bye".to_vec(),
    ];
    let emissions = s.drain_queue(&queue);
    assert_eq!(
        emissions,
        vec![
            b"Hi".to_vec(),
            b" there".to_vec(),
            b"!".to_vec(),
            b"Bye".to_vec(),
        ]
    );
    assert_eq!(s.content, b"Bye".to_vec());
}

#[test]
fn draining_an_empty_queue_changes_nothing() {
    let mut s = StreamState::new();
    let _ = s.next_emission(b"kept".to_vec());
    let emissions = s.drain_queue(&Vec::new());
    assert!(emissions.is_empty());
    assert_eq!(s.content, b"kept".to_vec());
}

#[test]
fn total_emitted_over_prefix_chain_equals_last_value() {
    let values: Vec<&[u8]> = vec![b"a", b"ab", b"abc", b"abcde"];
    let mut s = StreamState::new();
    let mut total: Vec<u8> = Vec::new();
    for v in values {
        let mut e = s.next_emission(v.to_vec());
        total.append(&mut e);
    }
    assert_eq!(total, b"abcde".to_vec());
}
