use tcio::futures::then;
use tcio::futures::then::{Phase, Then};

#[test]
fn starts_in_first_phase() {
    let chained: Then<i32, _, i32> = then(41, |x: i32| x + 1);
    match chained.phase {
        Phase::F1(v) => assert_eq!(v, 41),
        Phase::F2(_) => panic!("must start in the first phase"),
    }
    assert!(chained.map.is_some());
}

#[test]
fn hand_off_consumes_continuation() {
    let mut chained = then((), |x: i32| x * 2);
    chained.complete_first(21);
    assert!(chained.map.is_none());
    match chained.phase {
        Phase::F1(_) => panic!("hand-off must move to the second phase"),
        Phase::F2(v) => assert_eq!(v, 42),
    }
}

#[test]
fn hand_off_can_change_type() {
    let mut chained = then("first", |n: usize| format!("{} wide", n));
    chained.complete_first(3);
    match chained.phase {
        Phase::F1(_) => panic!("hand-off must move to the second phase"),
        Phase::F2(s) => assert_eq!(s, "3 wide"),
    }
}
