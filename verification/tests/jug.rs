use overcooked::jug::simple_jug::{InMemJug, SimpleJug};

fn jug3(used: u8) -> InMemJug {
    InMemJug { capacity: 3, occupancy: used }
}

fn jug5(used: u8) -> InMemJug {
    InMemJug { capacity: 5, occupancy: used }
}

#[test]
fn add_works() {
    let mut jug = SimpleJug { inner: InMemJug { capacity: 10, occupancy: 4 } };
    jug.add(2).unwrap();

    assert_eq!(jug.inner.occupancy, 6);
}

#[test]
fn available_space_works() {
    let jug = SimpleJug { inner: InMemJug { capacity: 10, occupancy: 4 } };

    assert_eq!(jug.available_space().unwrap(), 6);
}

#[test]
fn empty_empties_jug() {
    let mut jug = SimpleJug { inner: InMemJug { capacity: 10, occupancy: 4 } };
    jug.empty().unwrap();

    assert_eq!(jug.inner.occupancy, 0);
}

#[test]
fn fill_fills_up_jug() {
    let mut jug = SimpleJug { inner: InMemJug { capacity: 10, occupancy: 4 } };
    jug.fill().unwrap();

    assert_eq!(jug.inner.occupancy, 10);
}

#[test]
fn add_to_works() {
    let cases = [
        (jug3(0), jug5(0), jug3(0), jug5(0)),
        (jug3(0), jug5(1), jug3(0), jug5(1)),
        (jug3(0), jug5(5), jug3(0), jug5(5)),
        (jug3(1), jug5(1), jug3(0), jug5(2)),
        (jug3(1), jug5(4), jug3(0), jug5(5)),
        (jug3(2), jug5(4), jug3(1), jug5(5)),
        (jug3(1), jug5(5), jug3(1), jug5(5)),
    ];

    for (from, to, expected_from, expected_to) in cases {
        let mut from_jug = SimpleJug { inner: from };
        let mut to_jug = SimpleJug { inner: to };

        from_jug.add_to(&mut to_jug).unwrap();

        assert_eq!(from_jug.inner, expected_from);
        assert_eq!(to_jug.inner, expected_to);
    }
}
