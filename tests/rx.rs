use std::convert::TryInto;

use direct_decl::rx::Level::{
    ConditionalRx, ConditionalRxLocal, ConditionalRxShallow, NonRx, Rx, RxLocal, RxShallow,
};
use direct_decl::rx::{Level, RxNone};

#[test]
fn test_level_to_str_implicit_impl() {
    assert_eq!(Rx.try_into(), Ok("rx"));
    assert_eq!(ConditionalRxLocal.try_into(), Ok("conditional_rx_local"));

    let s: Result<&str, RxNone> = NonRx.try_into();
    assert_eq!(s, Err(RxNone));
}

#[test]
fn test_str_to_level_implicit_impl() {
    assert_eq!("rx".try_into(), Ok(Rx));
    assert_eq!("rx_shallow".try_into(), Ok(RxShallow));

    let level: Result<Level, RxNone> = "".try_into();
    assert_eq!(level, Err(RxNone));
}

#[test]
fn every_named_level_parses_back() {
    for level in [ConditionalRxLocal, ConditionalRxShallow, ConditionalRx, RxLocal, RxShallow, Rx] {
        let name = level.to_str().unwrap();
        assert_eq!(name.parse::<Level>(), Ok(level));
    }
    assert_eq!("conditional_rx_shallow".parse::<Level>(), Ok(ConditionalRxShallow));
    assert_eq!("RX".parse::<Level>(), Err(RxNone));
}
