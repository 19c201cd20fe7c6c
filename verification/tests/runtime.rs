use frincoe::cable::{aggregate, ArrayCable, Bundle, Cable};
use frincoe::counted_text::{CountedText, CountedTextProvider};
use frincoe::rpc::Connection;
use frincoe::text::dec_string;

#[test]
fn bundle_basics() {
    let mut b: Bundle<i32> = Bundle::new();
    assert_eq!(b.len(), 0);
    b.extend_one(1);
    b.extend(Bundle::from_vec(vec![2, 3]));
    assert_eq!(b.len(), 3);
    assert_eq!(*b.get(0), 1);
    assert_eq!(*b.get(2), 3);
    assert_eq!(b.into_vec(), vec![1, 2, 3]);
    let single: Bundle<String> = Bundle::from_single("hello".to_string());
    assert_eq!(single.into_vec(), vec!["hello".to_string()]);
}

#[test]
fn broadcast_aggregation() {
    // The aggregate of per-child results is their left-to-right fold from
    // the neutral element: concatenation in collection order.
    let parts = vec![
        Bundle::from_vec(vec![1, 2]),
        Bundle::from_vec(vec![3]),
        Bundle::from_vec(vec![]),
        Bundle::from_vec(vec![4, 5]),
    ];
    assert_eq!(aggregate(parts).into_vec(), vec![1, 2, 3, 4, 5]);
    // No children: the neutral element.
    let none: Vec<Bundle<i32>> = vec![];
    assert_eq!(aggregate(none).into_vec(), Vec::<i32>::new());
}

#[test]
fn array_cable_connections() {
    let mut cable: ArrayCable<u32> = ArrayCable::new();
    assert_eq!(cable.child_count(), 0);
    cable.add_connection(7).expect("Should be OK");
    cable.add_connection(9).expect("Should be OK");
    assert_eq!(cable.child_count(), 2);
    assert_eq!(*cable.child_at(0), 7);
    *cable.child_at_mut(1) = 11;
    assert_eq!(*cable.child_at(1), 11);
    cable.disconnect().expect("Should be OK");
}

#[test]
fn counted_text_responses() {
    let mut msg = CountedTextProvider::new("fc");
    assert_eq!(msg.send("hello"), "recv(fc) 1 5: hello\n");
    assert_eq!(msg.send("hi"), "recv(fc) 2 2: hi\n");
}

#[test]
fn counted_text_through_trait() {
    fn send_via<T: CountedText>(t: &mut T, text: &str) -> String {
        t.send(text)
    }
    let mut msg = CountedTextProvider::new("bus");
    assert_eq!(send_via(&mut msg, "abc"), "recv(bus) 1 3: abc\n");
}

#[test]
fn decimal_rendering() {
    assert_eq!(dec_string(0), "0");
    assert_eq!(dec_string(7), "7");
    assert_eq!(dec_string(40), "40");
    assert_eq!(dec_string(12345), "12345");
    assert_eq!(dec_string(u64::MAX), "18446744073709551615");
}
