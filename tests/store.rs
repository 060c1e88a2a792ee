use bitstore::order::{BitIdx, Lsb0, Msb0};
use bitstore::mem::{aligned_to_size, layout_eq, size_eq};
use bitstore::store::{bit_in, round_trip, BitSafeU8, BitStore};
use radium::types::RadiumU8;
use std::cell::Cell;
use std::marker::PhantomData;
use std::sync::atomic::AtomicU8;

struct Probe<T: ?Sized>(PhantomData<T>);

trait Fallback {
    const SEND: bool = false;
    const SYNC: bool = false;
}

impl<T: ?Sized> Fallback for Probe<T> {}

struct SendProbe<T: ?Sized>(PhantomData<T>);

impl<T: ?Sized> Fallback for SendProbe<T> {}

impl<T: ?Sized + Sync> Probe<T> {
    const SYNC: bool = true;
}

impl<T: ?Sized + Send> SendProbe<T> {
    const SEND: bool = true;
}

fn idx(i: u8) -> BitIdx<u8> {
    BitIdx::<u8>::new(i).unwrap()
}

fn exercise<T: BitStore<Mem = u8>>(x: u8) {
    let mut h = T::new(x);
    assert_eq!(h.load_value(), x);
    let y = x ^ 0b1010_0101;
    h.store_value(y);
    assert_eq!(h.load_value(), y);
    h.store_value(x);
    assert_eq!(h.load_value(), x);
}

fn bits_match<T: BitStore<Mem = u8>>(x: u8) {
    let h = T::new(x);
    for i in 0..8u8 {
        assert_eq!(h.get_bit::<Lsb0>(idx(i)), x & (1 << i) != 0);
        assert_eq!(h.get_bit::<Msb0>(idx(i)), x & (1 << (7 - i)) != 0);
    }
}

#[test]
fn unaliased_send_sync() {
    assert!(SendProbe::<u8>::SEND && Probe::<u8>::SYNC);
}

#[test]
fn cell_unsend_unsync() {
    assert!(!Probe::<Cell<u8>>::SYNC);
}

#[test]
fn aliased_atomic_send_sync() {
    assert!(SendProbe::<AtomicU8>::SEND && Probe::<AtomicU8>::SYNC);
}

#[test]
fn aliased_thread_safety_follows_radium() {
    assert_eq!(Probe::<BitSafeU8>::SYNC, Probe::<RadiumU8>::SYNC);
    assert_eq!(SendProbe::<BitSafeU8>::SEND, SendProbe::<RadiumU8>::SEND);
}

#[test]
fn layouts_hold_for_every_variant() {
    assert!(<u8 as BitStore>::aligned_to_size());
    assert!(<BitSafeU8 as BitStore>::aligned_to_size());
    assert!(<Cell<u8> as BitStore>::aligned_to_size());
    assert!(<AtomicU8 as BitStore>::aligned_to_size());
    assert!(<u8 as BitStore>::alias_width());
    assert!(<BitSafeU8 as BitStore>::alias_width());
    assert!(<Cell<u8> as BitStore>::alias_width());
    assert!(<AtomicU8 as BitStore>::alias_width());
}

#[test]
fn layout_checks_detect_mismatch() {
    assert!(aligned_to_size::<u32>());
    assert!(!aligned_to_size::<[u8; 3]>());
    assert!(layout_eq::<u8, BitSafeU8>());
    assert!(!layout_eq::<u8, u16>());
    assert!(!layout_eq::<[u8; 2], u16>());
}

#[test]
fn round_trip_every_variant() {
    for x in [0u8, 1, 0x5a, 0x80, 0xff] {
        exercise::<u8>(x);
        exercise::<BitSafeU8>(x);
        exercise::<Cell<u8>>(x);
        exercise::<AtomicU8>(x);
        let y = !x;
        assert_eq!(round_trip::<u8>(x, y), (x, y));
        assert_eq!(round_trip::<BitSafeU8>(x, y), (x, y));
        assert_eq!(round_trip::<Cell<u8>>(x, y), (x, y));
    }
}

#[test]
fn get_bit_matches_mask_every_variant() {
    for x in [0u8, 1, 0b1011_0010, 0x80, 0xff] {
        bits_match::<u8>(x);
        bits_match::<BitSafeU8>(x);
        bits_match::<Cell<u8>>(x);
        bits_match::<AtomicU8>(x);
    }
}

#[test]
fn zero_holds_no_bits() {
    assert_eq!(<u8 as BitStore>::zero().load_value(), 0);
    assert_eq!(<BitSafeU8 as BitStore>::zero().load_value(), 0);
    assert_eq!(<Cell<u8> as BitStore>::zero().load_value(), 0);
    assert_eq!(<AtomicU8 as BitStore>::zero().load_value(), 0);
}

#[test]
fn store_one_reads_lowest_bit() {
    let mut h = <u8 as BitStore>::new(0b0000_0000);
    h.store_value(0b0000_0001);
    assert!(h.get_bit::<Lsb0>(idx(0)));
    assert!(!h.get_bit::<Lsb0>(idx(1)));
    let mut c = <Cell<u8> as BitStore>::new(0b0000_0000);
    c.store_value(0b0000_0001);
    assert!(c.get_bit::<Lsb0>(idx(0)));
    assert!(!c.get_bit::<Lsb0>(idx(1)));
    let mut s = <BitSafeU8 as BitStore>::new(0b0000_0000);
    s.store_value(0b0000_0001);
    assert!(s.get_bit::<Lsb0>(idx(0)));
    assert!(!s.get_bit::<Lsb0>(idx(1)));
}

#[test]
fn msb0_reads_from_the_top() {
    let h = <u8 as BitStore>::new(0b1000_0000);
    assert!(h.get_bit::<Msb0>(idx(0)));
    assert!(!h.get_bit::<Lsb0>(idx(0)));
    assert!(h.get_bit::<Lsb0>(idx(7)));
}

#[test]
fn index_rejects_out_of_range() {
    assert!(BitIdx::<u8>::new(7).is_some());
    assert!(BitIdx::<u8>::new(8).is_none());
    assert!(BitIdx::<u8>::new(255).is_none());
    assert_eq!(idx(5).into_inner(), 5);
    assert_eq!(idx(2).position::<Msb0>(), 5);
    assert_eq!(idx(2).position::<Lsb0>(), 2);
    assert_eq!(idx(3).select::<Lsb0>(), 0b0000_1000);
    assert_eq!(idx(3).select::<Msb0>(), 0b0001_0000);
}

fn same_type<A: 'static, B: 'static>() -> bool {
    std::any::TypeId::of::<A>() == std::any::TypeId::of::<B>()
}

#[test]
fn alias_transitions_return_home() {
    type Safe = <u8 as BitStore>::Alias;
    assert!(same_type::<Safe, BitSafeU8>());
    assert!(same_type::<<Safe as BitStore>::Unalias, u8>());
    assert!(same_type::<<Safe as BitStore>::Alias, BitSafeU8>());
    assert!(same_type::<<u8 as BitStore>::Unalias, u8>());
    assert!(same_type::<<u8 as BitStore>::Access, Cell<u8>>());
    assert!(same_type::<<BitSafeU8 as BitStore>::Access, RadiumU8>());
    assert!(same_type::<<Cell<u8> as BitStore>::Alias, Cell<u8>>());
    assert!(same_type::<<Cell<u8> as BitStore>::Unalias, Cell<u8>>());
    assert!(same_type::<<AtomicU8 as BitStore>::Alias, AtomicU8>());
    assert!(same_type::<<AtomicU8 as BitStore>::Unalias, AtomicU8>());
}

#[test]
fn size_eq_compares_sizes_only() {
    assert!(size_eq::<u8, BitSafeU8>());
    assert!(size_eq::<[u8; 2], u16>());
    assert!(!size_eq::<u8, u16>());
}

#[test]
fn bit_in_tests_the_loaded_value() {
    assert!(bit_in::<u8, Lsb0>(0b0000_0100, idx(2)));
    assert!(!bit_in::<u8, Lsb0>(0b0000_0100, idx(5)));
    assert!(bit_in::<u8, Msb0>(0b0000_0100, idx(5)));
    assert!(!bit_in::<u8, Msb0>(0b0000_0100, idx(2)));
}
