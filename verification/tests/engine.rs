use fibonacci_service::{fibonacci, MAX_INDEX};

#[test]
fn first_two_terms_are_zero_and_one() {
    assert_eq!(fibonacci(0), 0);
    assert_eq!(fibonacci(1), 1);
}

#[test]
fn known_terms() {
    assert_eq!(fibonacci(2), 1);
    assert_eq!(fibonacci(3), 2);
    assert_eq!(fibonacci(10), 55);
    assert_eq!(fibonacci(20), 6765);
    assert_eq!(fibonacci(45), 1134903170);
    assert_eq!(fibonacci(89), 1779979416004714189);
    assert_eq!(fibonacci(90), 2880067194370816120);
}

#[test]
fn each_term_is_the_sum_of_the_two_before() {
    for n in 2..=MAX_INDEX {
        assert_eq!(
            fibonacci(n),
            fibonacci(n - 1) + fibonacci(n - 2),
            "at index {}",
            n
        );
    }
}

#[test]
fn terms_never_decrease() {
    for n in 1..=MAX_INDEX {
        assert!(fibonacci(n - 1) <= fibonacci(n), "at index {}", n);
    }
}

#[test]
fn terms_match_a_table_walked_by_hand() {
    let mut table: Vec<u64> = vec![0, 1];
    while (table.len() as u64) <= MAX_INDEX {
        let next = table[table.len() - 1] + table[table.len() - 2];
        table.push(next);
    }
    for n in 0..=MAX_INDEX {
        assert_eq!(fibonacci(n), table[n as usize], "at index {}", n);
    }
}

#[test]
fn maximum_index_is_ninety() {
    assert_eq!(MAX_INDEX, 90);
}

#[test]
fn largest_term_leaves_room_in_a_u64() {
    let largest = fibonacci(MAX_INDEX);
    let before = fibonacci(MAX_INDEX - 1);
    assert!(before.checked_add(largest).is_some());
    assert!(largest < u64::MAX);
}

#[test]
fn same_index_same_term() {
    for n in [0u64, 1, 2, 37, 90] {
        assert_eq!(fibonacci(n), fibonacci(n));
    }
}
