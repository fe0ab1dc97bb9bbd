use coop_executor::feed::{select, Selector, WANTED_COUNT, WANTED_LEN};
use coop_executor::record::{argu_func, Info};
use coop_executor::sizing::{check_size, Assert, IsTrue, SIZE_LIMIT};

fn holds<T: IsTrue>(_: &T) -> bool {
    true
}

#[test]
fn size_limit_is_768_bytes() {
    assert_eq!(SIZE_LIMIT, 768);
    assert!(check_size([0u8; 767]));
    assert!(!check_size([0u8; 768]));
    assert!(!check_size([0u8; 1024]));
}

#[test]
fn sizes_of_arrays_are_checked() {
    assert!(check_size([0i32; 191]));
    assert!(!check_size([0i32; 192]));
    assert!(check_size(['x'; 191]));
    assert!(check_size(["hello"; 47]));
    assert!(!check_size(["hello"; 48]));
    assert!(check_size(()));
}

#[test]
fn assert_true_is_true() {
    let a: Assert<true> = Assert::Stated;
    assert!(holds(&a));
}

#[test]
fn argu_func_hands_all_four_facts_to_the_closure() {
    let info = argu_func(
        |age: usize, name: &str, sex: &str, score: i32| {
            assert_eq!(age, 22);
            assert_eq!(name, "Bob");
            assert_eq!(sex, "male");
            Info::Score(score)
        },
        22,
        "Bob",
        "male",
        88,
    );
    assert!(matches!(info, Info::Score(88)));
}

#[test]
fn argu_func_returns_what_the_closure_returns() {
    let named = argu_func(|_, name, _, _: u8| Info::Name(name), 20, "Alice", "female", 1u8);
    assert!(matches!(named, Info::Name("Alice")));
    let aged = argu_func(|age, _, _, _: u8| Info::Age(age), 20, "Alice", "female", 1u8);
    assert!(matches!(aged, Info::Age(20)));
    let sexed = argu_func(|_, _, sex, _: u8| Info::Sex(sex), 20, "Alice", "female", 1u8);
    assert!(matches!(sexed, Info::Sex("female")));
}

#[test]
fn argu_func_carries_a_float_score() {
    let info = argu_func(|_, _, _, score: f64| Info::Score(score), 20, "Alice", "female", 95.5);
    match info {
        Info::Score(score) => assert_eq!(score, 95.5),
        _ => panic!("not a score"),
    }
}

#[test]
fn selector_passes_three_contents_of_four_bytes() {
    assert_eq!(WANTED_LEN, 4);
    assert_eq!(WANTED_COUNT, 3);
    let mut s = Selector::new();
    assert_eq!(s.remaining, 3);
    assert!(!s.offer(1));
    assert!(!s.offer(3));
    assert!(s.offer(4));
    assert!(s.offer(4));
    assert!(!s.offer(5));
    assert!(!s.is_done());
    assert!(s.offer(4));
    assert!(s.is_done());
    assert!(!s.offer(4));
    assert_eq!(s.remaining, 0);
}

#[test]
fn select_picks_the_first_three_wanted_messages() {
    // "1", "two", "3", "four", "five", "6", "LOVE", "LOVE"
    let lens = vec![1, 3, 1, 4, 4, 1, 4, 4];
    assert_eq!(select(&lens), vec![3, 4, 6]);
}

#[test]
fn select_picks_fewer_when_fewer_are_wanted() {
    assert_eq!(select(&vec![4, 0, 5, 4]), vec![0, 3]);
    assert_eq!(select(&vec![1, 2, 3]), Vec::<usize>::new());
    assert_eq!(select(&Vec::new()), Vec::<usize>::new());
}
