use transport_session::stream_id::StreamIdAllocator;

#[test]
fn first_identifier_is_one() {
    let mut ids = StreamIdAllocator::new();
    assert_eq!(ids.peek(), 1);
    assert!(ids.can_allocate());
    assert_eq!(ids.allocate(), 1);
    assert_eq!(ids.peek(), 2);
}

#[test]
fn identifiers_count_up_without_repeats() {
    let mut ids = StreamIdAllocator::new();
    let mut seen = Vec::new();
    for _ in 0..1000 {
        seen.push(ids.allocate());
    }
    let expected: Vec<u32> = (1..=1000).collect();
    assert_eq!(seen, expected);
}

#[test]
fn each_identifier_is_greater_than_all_before() {
    let mut ids = StreamIdAllocator::new();
    let mut greatest = 0;
    for _ in 0..100 {
        let id = ids.allocate();
        assert!(id > greatest);
        greatest = id;
    }
}
