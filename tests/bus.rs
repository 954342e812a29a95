use tritiumcan::{BusNumber, Error};

#[test]
fn bus_number() {
    assert!(BusNumber::try_from(0).is_ok());
    assert!(BusNumber::try_from(13).is_ok());
    assert!(BusNumber::try_from(15).is_ok());
    assert!(BusNumber::try_from(16).is_err());
    assert!(BusNumber::try_from(255).is_err());
}

#[test]
fn lib_bus_number() {
    assert!(BusNumber::try_from(0).is_ok());
    assert!(BusNumber::try_from(13).is_ok());
    assert!(BusNumber::try_from(15).is_ok());
    assert!(BusNumber::try_from(16).is_err());
    assert!(BusNumber::try_from(255).is_err());
}

#[test]
fn bus_number_whole_range() {
    for n in 0..=255u8 {
        match BusNumber::try_from(n) {
            Ok(b) => {
                assert!(n <= 15);
                assert_eq!(b.value(), n);
            }
            Err(e) => {
                assert!(n >= 16);
                assert_eq!(e, Error::RangeError);
            }
        }
    }
}

#[test]
fn bus_number_default_is_13() {
    assert_eq!(BusNumber::default().value(), 13);
    assert_eq!(u8::from(BusNumber::default()), 13);
}
