use yage::array::Array;
use yage::atomic::{Counter, Mutable};
use yage::bimap::Bimap;
use yage::builder::ArrayBuilder;
use yage::cache::IdHashed;
use yage::harness::{App, Harness};
use yage::header::{GetLayout, Header, LayoutInfo};
use yage::list::LinkedList;
use yage::state::{AtomicState, State};
use yage::states::main_loop::MainLoop;

struct DummyLayout;

impl GetLayout for DummyLayout {
    fn layout(&self) -> LayoutInfo {
        LayoutInfo { size: 4, align: 4 }
    }
}

#[test]
fn test_header_correctness() {
    let header = Header::new(true, 3, DummyLayout);
    assert!(header.is_constant());
    assert!(header.capacity() == 3);
}

#[test]
fn test_alloc_worked() {
    // storage allocation itself happens outside the verified core
}

#[test]
fn test_array() {
    let mut array = Array::<u8, 6>::new();
    array.push(1).unwrap();
    array.push(0).unwrap();
    array.push(1).unwrap();
    array.push_rest_with(3);
    assert!(array.push(1).is_err());
    let array = array.assume_init_unchecked();
    assert!(array == [1, 0, 1, 3, 3, 3]);
}

#[test]
fn test_linked_list() {
    let mut list = LinkedList::new();
    list.push_front(0);
    list.push_front(1);
    let v = list.pop_front();
    assert!(v == Some(1));
}

#[test]
fn header_mask_values() {
    let header = Header::new(true, 3, DummyLayout);
    assert_eq!(header.cap, 0x8000_0003);
    assert_eq!(header.len(), 0);
    assert!(!header.is_full());
    let plain = Header::new(false, 5, DummyLayout);
    assert!(!plain.is_constant());
    assert_eq!(plain.capacity(), 5);
    assert_eq!(plain.layout().size, 4);
}

#[test]
fn state_packs_into_disjoint_bits() {
    let s = State { reference_count: 3, flags: 0x8001, tag: 9 };
    assert_eq!(s.as_usize(), 0x0009_8001_0000_0003u64);
    let back = State::from_usize(s.as_usize());
    assert_eq!(back, s);
}

#[test]
fn state_flag_operations() {
    let s = State { reference_count: 0, flags: 0, tag: 0 };
    let s = s.set_flag(0b100);
    assert!(s.has_flag_set(0b100));
    assert!(!s.has_flag_set(0b010));
    let s = s.set_flag(0b010).clear_flag(0b100);
    assert!(s.has_flag_set(0b010));
    assert!(!s.has_flag_set(0b100));
    let s = s.increment_reference_count();
    assert_eq!(s.reference_count, 1);
    let s = s.decrement_reference_count();
    assert_eq!(s.reference_count, 0);
}

#[test]
fn atomic_state_compare_exchange() {
    let zero = State { reference_count: 0, flags: 0, tag: 0 };
    let one = State { reference_count: 1, flags: 0, tag: 0 };
    let mut cell = AtomicState::new(zero);
    assert_eq!(cell.load(), zero);
    let r = cell.compare_exchange_weak(zero, one);
    assert_eq!(r, Ok(zero));
    assert_eq!(cell.load(), one);
    let r = cell.compare_exchange_weak(zero, one);
    assert_eq!(r, Err(one));
    cell.store(zero);
    assert_eq!(cell.load(), zero);
    let got = cell.with(|s| (s.increment_reference_count(), 42u32));
    assert_eq!(got, 42);
    assert_eq!(cell.load().reference_count, 1);
}

#[test]
fn array_builder_takes_when_full() {
    let mut b = ArrayBuilder::<u8, 3>::new();
    b.push(1);
    b.push(2);
    assert!(b.take().is_none());
    b.push(3);
    let v = b.take().unwrap();
    assert_eq!(v, vec![1, 2, 3]);
}

#[test]
fn bimap_lookups_are_absent() {
    let m: Bimap<u32, u32> = Bimap::new();
    assert!(m.get_right(&1).is_none());
    assert!(m.get_left(&2).is_none());
}

#[test]
fn counter_locks_for_mutation() {
    let mut c: usize = Counter::init();
    assert!(!c.is_set_mutable());
    c.increment();
    assert!(!c.set_mutable());
    c.decrement();
    assert!(c.set_mutable());
    assert!(c.is_set_mutable());
    let m: Mutable<usize, u8> = Mutable::new(7);
    assert_eq!(m.val, 7);
}

#[test]
fn id_hashed_compares_by_id_alone() {
    let a = IdHashed::new(1, "left");
    let b = IdHashed::new(1, "right");
    let c = IdHashed::new(2, "left");
    assert!(a == b);
    assert!(a != c);
}

#[test]
fn harness_and_main_loop_hold_their_parts() {
    let app: App<u8, ()> = App::new(5);
    assert_eq!(app.state, 5);
    assert!(app.data.is_none());
    let h = Harness::new(app, 0u32, 1u8);
    assert_eq!(h.cx, 0);
    let ml: MainLoop<u8, u8, u8, u8> = MainLoop::new(1, 2, 3);
    assert_eq!(ml.main_loop, Some(1));
    assert_eq!(ml.state, Some(2));
    assert_eq!(ml.event_queue, Some(3));
    assert!(ml.renderer.is_none());
}

#[test]
fn header_capacity_boundary() {
    let header = Header::new(false, 0x7fff_ffff, DummyLayout);
    assert_eq!(header.capacity(), 0x7fff_ffff);
    assert!(!header.is_constant());
    let header = Header::new(true, 0, DummyLayout);
    assert_eq!(header.capacity(), 0);
    assert!(header.is_constant());
    assert!(header.is_full());
}

#[test]
fn state_packs_extreme_values() {
    let s = State { reference_count: u32::MAX, flags: 0xffff, tag: 0xffff };
    assert_eq!(State::from_usize(s.as_usize()), s);
    assert_eq!(s.as_usize(), u64::MAX);
}
