use ari::basics::{
    as_slice, as_slice_mut, assert_send, assert_send_sync, assert_sync, option_as_slice,
    option_as_slice_mut, Any, BlackHole, BoolExt, DefaultDebug, VecExt,
};
use ari::cmp::{compare_floating, partial_max, partial_min, Float};
use ari::collections::{keys, values};
use ari::console::clear_into;
use std::cmp::Ordering;

#[test]
fn markers_accept_plain_values() {
    assert_send(1u8);
    assert_sync("text");
    assert_send_sync(vec![1, 2, 3]);
}

fn takes_any(_: &dyn Any) {}

#[test]
fn every_type_is_any() {
    takes_any(&1u8);
    takes_any(&"text");
    takes_any(&BlackHole);
}

#[test]
fn black_hole_is_a_failure_of_any_type() {
    let r: Result<u8, BlackHole> = BlackHole.into_result();
    assert_eq!(r, Err(BlackHole));
    let r: Result<String, BlackHole> = BlackHole.into_result();
    assert_eq!(r, Err(BlackHole));
    assert_eq!(BlackHole.to_string(), "BlackHole\n");
    assert_eq!(BlackHole, BlackHole);
}

#[test]
fn default_debug_hands_out_its_item() {
    let mut wrapped = DefaultDebug(5u32);
    assert_eq!(*wrapped.get(), 5);
    *wrapped.get_mut() = 6;
    assert_eq!(wrapped.0, 6);
}

#[test]
fn one_item_as_a_slice() {
    let item = 7u32;
    assert_eq!(as_slice(&item), &[7]);
    let mut item = 7u32;
    as_slice_mut(&mut item)[0] = 8;
    assert_eq!(item, 8);
    assert_eq!(as_slice_mut(&mut item).len(), 1);
}

#[test]
fn an_option_as_a_slice() {
    assert_eq!(option_as_slice(&Some(3u8)), &[3]);
    assert_eq!(option_as_slice::<u8>(&None), &[] as &[u8]);
    let mut value = Some(3u8);
    option_as_slice_mut(&mut value)[0] = 4;
    assert_eq!(value, Some(4));
    let mut nothing: Option<u8> = None;
    assert_eq!(option_as_slice_mut(&mut nothing).len(), 0);
    assert_eq!(nothing, None);
}

#[test]
fn clear_vec_empties_a_vec() {
    let mut v = vec![1, 2, 3];
    v.clear_vec();
    assert_eq!(v, Vec::<i32>::new());
    let mut v = vec![String::from("a")];
    v.clear_vec();
    assert!(v.is_empty());
}

#[test]
fn bool_as_option() {
    assert_eq!(true.as_option(), Some(()));
    assert_eq!(false.as_option(), None);
}

#[test]
fn partial_min_and_max_of_ordered_values() {
    assert_eq!(1, partial_min(1, 2));
    assert_eq!(1, partial_min(2, 1));
    assert_eq!(2, partial_min(2, 2));
    assert_eq!(2, partial_max(1, 2));
    assert_eq!(2, partial_max(2, 1));
    assert_eq!(2, partial_max(2, 2));
}

#[derive(Debug, Clone, Copy)]
struct Tagged(u32, char);

impl PartialEq for Tagged {
    fn eq(&self, other: &Tagged) -> bool {
        self.0 == other.0
    }
}

impl PartialOrd for Tagged {
    fn partial_cmp(&self, other: &Tagged) -> Option<Ordering> {
        self.0.partial_cmp(&other.0)
    }
}

#[test]
fn equal_values_give_the_first() {
    assert_eq!(partial_min(Tagged(1, 'a'), Tagged(1, 'b')).1, 'a');
    assert_eq!(partial_max(Tagged(1, 'a'), Tagged(1, 'b')).1, 'a');
}

#[test]
fn values_that_do_not_compare_give_the_second() {
    assert_eq!(partial_min(f64::NAN, 1.0), 1.0);
    assert!(partial_min(1.0, f64::NAN).is_nan());
    assert_eq!(partial_max(f64::NAN, 1.0), 1.0);
    assert!(partial_max(1.0, f64::NAN).is_nan());
    assert_eq!(partial_min(1.5, 2.5), 1.5);
    assert_eq!(partial_max(1.5, 2.5), 2.5);
}

#[derive(Debug, Clone, Copy, PartialEq, PartialOrd)]
struct Number(f64);

impl Float for Number {
    fn is_nan_spec(self) -> bool {
        self.0.is_nan()
    }

    fn is_nan(self) -> bool {
        self.0.is_nan()
    }
}

#[test]
fn compare_floating_orders_numbers() {
    assert_eq!(Ordering::Less, compare_floating(&Number(1.0), &Number(2.0)));
    assert_eq!(Ordering::Equal, compare_floating(&Number(2.0), &Number(2.0)));
    assert_eq!(Ordering::Greater, compare_floating(&Number(3.0), &Number(2.0)));
    assert_eq!(Ordering::Less, compare_floating(&Number(f64::NEG_INFINITY), &Number(f64::INFINITY)));
}

#[test]
fn compare_floating_puts_nan_at_the_end() {
    let nan = Number(f64::NAN);
    assert_eq!(Ordering::Equal, compare_floating(&nan, &nan));
    assert_eq!(Ordering::Greater, compare_floating(&nan, &Number(f64::INFINITY)));
    assert_eq!(Ordering::Less, compare_floating(&Number(f64::INFINITY), &nan));
    let mut list = vec![Number(2.0), nan, Number(-1.0), Number(0.5)];
    list.sort_by(compare_floating);
    assert_eq!(list[0], Number(-1.0));
    assert_eq!(list[1], Number(0.5));
    assert_eq!(list[2], Number(2.0));
    assert!(list[3].0.is_nan());
}

#[test]
fn keys_and_values_in_order() {
    let pairs = vec![(1, "one"), (2, "two"), (3, "three")];
    assert_eq!(keys(pairs.clone()), vec![1, 2, 3]);
    assert_eq!(values(pairs), vec!["one", "two", "three"]);
    assert_eq!(keys(Vec::<(u8, u8)>::new()), Vec::<u8>::new());
    assert_eq!(values(Vec::<(u8, u8)>::new()), Vec::<u8>::new());
    let owned = vec![(String::from("k"), vec![1u8])];
    assert_eq!(keys(owned.clone()), vec![String::from("k")]);
    assert_eq!(values(owned), vec![vec![1u8]]);
}

#[test]
fn clear_into_appends_the_escapes() {
    let mut stream = Vec::new();
    clear_into(&mut stream);
    assert_eq!(stream, b"\x1b[2J\x1b[1;1H");
    let mut stream = vec![b'x'];
    clear_into(&mut stream);
    assert_eq!(stream, b"x\x1b[2J\x1b[1;1H");
}
