use notification::IntoNotification;
use notification::Notification;
use notification::Notify;
use notification::NotifyAdditional;
use notification::Overflow;

#[test]
fn a_count_turns_into_notify() {
    assert_eq!(3usize.into_notification().count(0), 3);
    assert_eq!(3usize.into_notification().count(5), 0);
    assert_eq!(3usize.additional().count(5), 3);
}

#[test]
fn every_integer_type_converts() {
    assert_eq!(7usize.into_notification().count(2), 5);
    assert_eq!(7u8.into_notification().count(2), 5);
    assert_eq!(7u16.into_notification().count(2), 5);
    assert_eq!(7u32.into_notification().count(2), 5);
    assert_eq!(7u64.into_notification().count(2), 5);
    assert_eq!(7u128.into_notification().count(2), 5);
    assert_eq!(7isize.into_notification().count(2), 5);
    assert_eq!(7i8.into_notification().count(2), 5);
    assert_eq!(7i16.into_notification().count(2), 5);
    assert_eq!(7i32.into_notification().count(2), 5);
    assert_eq!(7i64.into_notification().count(2), 5);
    assert_eq!(7i128.into_notification().count(2), 5);
}

#[test]
fn the_largest_values_of_the_narrow_types_convert() {
    assert_eq!(u8::MAX.into_notification().count(0), 255);
    assert_eq!(u16::MAX.into_notification().count(0), 65535);
    assert_eq!(i8::MAX.into_notification().count(0), 127);
    assert_eq!(i16::MAX.into_notification().count(0), 32767);
    assert_eq!(usize::MAX.into_notification().count(0), usize::MAX);
    assert_eq!(0i64.into_notification().count(0), 0);
}

#[test]
fn a_value_beyond_the_native_width_overflows() {
    assert!(matches!(u128::MAX.try_into_notification(), Err(Overflow)));
    let beyond = usize::MAX as u128 + 1;
    assert!(matches!(beyond.try_into_notification(), Err(Overflow)));
    assert!(matches!(i128::MAX.try_into_notification(), Err(Overflow)));
}

#[test]
fn the_native_limit_itself_does_not_overflow() {
    let limit = usize::MAX as u128;
    match limit.try_into_notification() {
        Ok(strategy) => {
            assert_eq!(strategy.count(0), usize::MAX);
            assert_eq!(strategy.count(usize::MAX), 0);
        }
        Err(Overflow) => panic!("the limit fits"),
    }
}

#[test]
fn a_negative_value_overflows() {
    assert!(matches!((-1isize).try_into_notification(), Err(Overflow)));
    assert!(matches!((-1i8).try_into_notification(), Err(Overflow)));
    assert!(matches!((-1i16).try_into_notification(), Err(Overflow)));
    assert!(matches!((-1i32).try_into_notification(), Err(Overflow)));
    assert!(matches!((-1i64).try_into_notification(), Err(Overflow)));
    assert!(matches!((-1i128).try_into_notification(), Err(Overflow)));
    assert!(matches!(i8::MIN.try_into_notification(), Err(Overflow)));
    assert!(matches!(i128::MIN.try_into_notification(), Err(Overflow)));
}

#[test]
fn a_value_that_fits_converts_without_wrapping() {
    match 300u64.try_into_notification() {
        Ok(strategy) => assert_eq!(strategy.count(0), 300),
        Err(Overflow) => panic!("300 fits"),
    }
    match 70000i32.try_into_notification() {
        Ok(strategy) => assert_eq!(strategy.count(1), 69999),
        Err(Overflow) => panic!("70000 fits"),
    }
    assert!(5u8.try_into_notification().is_ok());
    assert!(5u16.try_into_notification().is_ok());
    assert!(5u32.try_into_notification().is_ok());
    assert!(5usize.try_into_notification().is_ok());
    assert!(0i8.try_into_notification().is_ok());
}

#[test]
fn a_strategy_turns_into_itself() {
    let top_up = Notify::new(4).into_notification();
    assert_eq!(top_up.count(1), 3);
    let further = NotifyAdditional::new(4).into_notification();
    assert_eq!(further.count(1), 4);
    let mut tagged = 4usize.tag('a').into_notification();
    assert_eq!(tagged.count(1), 3);
    assert_eq!(tagged.next_tag(), 'a');
    assert!(Notify::new(4).try_into_notification().is_ok());
}

#[test]
fn additional_requests_the_same_number() {
    assert_eq!(5usize.additional().count(0), 5);
    assert_eq!(5usize.additional().count(2), 5);
    assert_eq!(5usize.additional().count(100), 5);
    assert_eq!(5u8.additional().count(9), 5);
    assert_eq!(5i64.additional().count(9), 5);
    assert_eq!(Notify::new(5).additional().count(9), 5);
    assert_eq!(0usize.additional().count(9), 0);
}

#[test]
fn five_tagged_done_with_two_waiting() {
    let waiting = 2;
    let mut strategy = 5usize.tag("done");
    assert!(strategy.fence());
    assert_eq!(strategy.count(waiting), 3);
    assert_eq!(strategy.next_tag(), "done");
    assert_eq!(strategy.next_tag(), "done");
    assert_eq!(strategy.next_tag(), "done");
}

#[test]
fn five_additional_relaxed_with_two_waiting() {
    let waiting = 2;
    let strategy = 5usize.additional().relaxed();
    assert!(!strategy.fence());
    assert_eq!(strategy.count(waiting), 5);
}

#[test]
fn tag_with_builds_on_a_count() {
    let mut calls = 0u8;
    {
        let mut strategy = 3u16.tag_with(|| {
            calls += 1;
            (calls, "woken")
        });
        assert!(strategy.fence());
        assert_eq!(strategy.count(1), 2);
        assert_eq!(strategy.next_tag(), (1, "woken"));
        assert_eq!(strategy.next_tag(), (2, "woken"));
    }
    assert_eq!(calls, 2);
}

#[test]
fn builders_chain() {
    let mut strategy = 6u32.additional().relaxed().tag(1.5f64);
    assert!(!strategy.fence());
    assert_eq!(strategy.count(4), 6);
    assert_eq!(strategy.next_tag(), 1.5);
    let mut generated = 6i8.relaxed().tag_with(|| vec![1u8, 2]);
    assert!(!generated.fence());
    assert_eq!(generated.count(4), 2);
    assert_eq!(generated.next_tag(), vec![1u8, 2]);
}

#[test]
fn the_overflow_prints_its_name() {
    assert_eq!(format!("{:?}", Overflow), "Overflow");
    assert_eq!(Overflow, Overflow.clone());
}
