use schroedinger_box::{FixedSource, RandomSource, SchroedingerBox, SplitMix64};
use std::cmp::Ordering;
use std::collections::hash_map::DefaultHasher;
use std::fmt;
use std::hash::{Hash, Hasher};

/// A source that must never be asked.
struct Idle;

impl RandomSource for Idle {
    fn below(&mut self, _bound: u128) -> u128 {
        panic!("the source was asked for a draw")
    }
}

/// A value whose `Display` implementation always reports an error.
struct Unprintable;

impl fmt::Display for Unprintable {
    fn fmt(&self, _f: &mut fmt::Formatter) -> fmt::Result {
        Err(fmt::Error)
    }
}

/// A value whose copies can be told from the value they were made from.
#[derive(Debug, PartialEq)]
struct Generation(u32);

impl Clone for Generation {
    fn clone(&self) -> Self {
        Generation(self.0 + 1)
    }
}

fn hash_of<T: Hash>(value: &T) -> u64 {
    let mut hasher = DefaultHasher::new();
    value.hash(&mut hasher);
    hasher.finish()
}

#[test]
fn eq_compares_the_values_inside() {
    let mut rng = FixedSource { value: 1 };
    let mut a = SchroedingerBox::new(vec![1, 2, 3]).unwrap();
    let mut b = SchroedingerBox::from_probabilities(vec![(1, 7), (1, 2)]).unwrap();
    let mut c = SchroedingerBox::new(vec![9]).unwrap();
    assert!(a.eq(&mut b, &mut rng));
    assert!(b.eq(&mut a, &mut Idle));
    assert!(!a.eq(&mut c, &mut Idle));
    assert_eq!(a.into_inner(&mut Idle), 2);
    assert_eq!(b.into_inner(&mut Idle), 2);
    assert_eq!(c.into_inner(&mut Idle), 9);
}

#[test]
fn eq_opens_the_left_box_first() {
    struct Rising {
        next: u128,
    }
    impl RandomSource for Rising {
        fn below(&mut self, bound: u128) -> u128 {
            let draw = self.next % bound;
            self.next += 1;
            draw
        }
    }
    let mut rng = Rising { next: 0 };
    let mut a = SchroedingerBox::new(vec!['x', 'y']).unwrap();
    let mut b = SchroedingerBox::new(vec!['x', 'y']).unwrap();
    assert!(!a.eq(&mut b, &mut rng));
    assert_eq!(a.into_inner(&mut Idle), 'x');
    assert_eq!(b.into_inner(&mut Idle), 'y');
}

#[test]
fn cmp_orders_the_values_inside() {
    let mut rng = FixedSource { value: 0 };
    let mut low = SchroedingerBox::new(vec![1, 50]).unwrap();
    let mut high = SchroedingerBox::new(vec![2, 0]).unwrap();
    assert_eq!(low.cmp(&mut high, &mut rng), Ordering::Less);
    assert_eq!(high.cmp(&mut low, &mut Idle), Ordering::Greater);
    let mut same = low.clone(&mut Idle);
    assert_eq!(low.cmp(&mut same, &mut Idle), Ordering::Equal);
}

#[test]
fn partial_cmp_orders_the_values_inside() {
    let mut rng = FixedSource { value: 1 };
    let mut a = SchroedingerBox::new(vec![0.5, 2.5]).unwrap();
    let mut b = SchroedingerBox::new(vec![0.5, 1.5]).unwrap();
    assert_eq!(a.partial_cmp(&mut b, &mut rng), Some(Ordering::Greater));
    assert_eq!(b.partial_cmp(&mut a, &mut Idle), Some(Ordering::Less));
    let mut nan = SchroedingerBox::new(vec![f64::NAN]).unwrap();
    assert_eq!(a.partial_cmp(&mut nan, &mut Idle), None);
    let mut other_nan = nan.clone(&mut Idle);
    assert!(!nan.eq(&mut other_nan, &mut Idle));
}

#[test]
fn clone_collapses_the_box_and_copies_the_value() {
    let mut rng = SplitMix64::new(11);
    let mut kept = SchroedingerBox::new(vec![1, 2, 3, 4, 5]).unwrap();
    let mut copy = kept.clone(&mut rng);
    assert_eq!(kept.draw_range(), None);
    assert_eq!(copy.draw_range(), None);
    let shown = *copy.peek(&mut Idle);
    assert_eq!(*kept.peek(&mut Idle), shown);
    assert!(kept.eq(&mut copy, &mut Idle));
}

#[test]
fn clone_after_observation_shows_the_same_value() {
    let mut rng = SplitMix64::new(11);
    let mut kept = SchroedingerBox::new(vec![1, 2, 3, 4, 5]).unwrap();
    let shown = *kept.peek(&mut rng);
    let mut copy = kept.clone(&mut Idle);
    assert_eq!(*copy.peek(&mut Idle), shown);
    assert_eq!(*kept.peek(&mut Idle), shown);

    let mut early = SchroedingerBox::new(vec![1, 2, 3, 4, 5]).unwrap();
    let mut early_copy = early.clone(&mut SplitMix64::new(11));
    assert_eq!(*early_copy.peek(&mut Idle), shown);
    assert_eq!(*early.peek(&mut Idle), shown);
}

#[test]
fn clone_is_independent_of_the_box_it_came_from() {
    let mut kept = SchroedingerBox::new(vec![String::from("cat")]).unwrap();
    let mut copy = kept.clone(&mut Idle);
    copy.peek_mut(&mut Idle).push_str("fish");
    assert_eq!(kept.into_inner(&mut Idle), "cat");
    assert_eq!(copy.into_inner(&mut Idle), "catfish");
}

#[test]
fn clone_goes_through_the_clone_of_the_value() {
    let mut kept = SchroedingerBox::new(vec![Generation(0)]).unwrap();
    let mut copy = kept.clone(&mut Idle);
    let copy_of_copy = copy.clone(&mut Idle);
    assert_eq!(kept.into_inner(&mut Idle), Generation(0));
    assert_eq!(copy.into_inner(&mut Idle), Generation(1));
    assert_eq!(copy_of_copy.into_inner(&mut Idle), Generation(2));
}

#[test]
fn hash_is_the_hash_of_the_value_inside() {
    let mut rng = FixedSource { value: 2 };
    let mut b = SchroedingerBox::new(vec!["zero", "one", "two"]).unwrap();
    let mut hasher = DefaultHasher::new();
    b.hash(&mut rng, &mut hasher);
    assert_eq!(hasher.finish(), hash_of(&"two"));
    assert_ne!(hasher.finish(), DefaultHasher::new().finish());

    let mut again = DefaultHasher::new();
    b.hash(&mut Idle, &mut again);
    assert_eq!(again.finish(), hash_of(&"two"));
}

#[test]
fn to_string_formats_the_value_inside() {
    let mut rng = FixedSource { value: 1 };
    let mut b = SchroedingerBox::new(vec![41, 42]).unwrap();
    assert_eq!(b.to_string(&mut rng), Some(String::from("42")));
    assert_eq!(b.to_string(&mut Idle), Some(String::from("42")));
    let mut cat = SchroedingerBox::new(vec![true]).unwrap();
    assert_eq!(cat.to_string(&mut Idle), Some(String::from("true")));
}

#[test]
fn to_string_reports_a_failing_display() {
    let mut b = SchroedingerBox::new(vec![Unprintable]).unwrap();
    assert_eq!(b.to_string(&mut Idle), None);
}

#[test]
fn default_holds_the_default_value() {
    let b: SchroedingerBox<i32> = Default::default();
    assert_eq!(b.draw_range(), None);
    assert_eq!(b.into_inner(&mut Idle), 0);
    let s: SchroedingerBox<String> = SchroedingerBox::default();
    assert_eq!(s.into_inner(&mut Idle), "");
}
