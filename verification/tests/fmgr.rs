use postgres_extension::{Datum, FmgrInfo, FunctionCallInfo, FunctionCallInfoData, FUNC_MAX_ARGS};

fn words(n: usize) -> Vec<Option<Datum>> {
    (0..n).map(|i| Some(Datum::new(i + 1000))).collect()
}

#[test]
fn frame_without_arguments_is_valid_and_yields_none() {
    let frame = FunctionCallInfoData::new(0, 0, &Vec::new()).expect("no argument fits");
    assert_eq!(frame.nargs, 0);
    let view = FunctionCallInfo::new(&frame).expect("a valid frame");
    assert_eq!(view.nargs(), 0);
    assert!(view.args().is_empty());
    assert_eq!(view.arg(0), None);
    assert_eq!(view.arg_is_null(0), None);
}

#[test]
fn frame_with_every_slot_in_use_is_valid() {
    assert_eq!(FUNC_MAX_ARGS, 100);
    let args = words(100);
    let frame = FunctionCallInfoData::new(0, 0, &args).expect("a hundred arguments fit");
    assert_eq!(frame.nargs, 100);
    let view = FunctionCallInfo::new(&frame).expect("a valid frame");
    assert_eq!(view.nargs(), 100);
    assert_eq!(view.args(), args);
    assert_eq!(view.arg(0), Some(Datum::new(1000)));
    assert_eq!(view.arg(99), Some(Datum::new(1099)));
    assert_eq!(view.arg_is_null(99), Some(false));
    assert_eq!(view.arg(100), None);
    assert_eq!(view.arg_is_null(100), None);
    assert_eq!(view.arg(usize::MAX), None);
}

#[test]
fn more_arguments_than_slots_make_no_frame() {
    assert!(FunctionCallInfoData::new(0, 0, &words(101)).is_none());
    assert!(FunctionCallInfoData::new(0, 0, &words(1000)).is_none());
}

#[test]
fn frame_that_claims_too_many_arguments_is_refused() {
    let mut frame = FunctionCallInfoData::new(0, 0, &words(3)).unwrap();
    frame.nargs = 101;
    assert!(FunctionCallInfo::new(&frame).is_none());
    frame.nargs = u16::MAX;
    assert!(FunctionCallInfo::new(&frame).is_none());
    frame.nargs = 100;
    assert!(FunctionCallInfo::new(&frame).is_some());
}

#[test]
fn access_beyond_the_arguments_passed_fails() {
    let frame = FunctionCallInfoData::new(0, 0, &words(2)).unwrap();
    let view = FunctionCallInfo::new(&frame).unwrap();
    assert_eq!(view.arg(1), Some(Datum::new(1001)));
    assert_eq!(view.arg(2), None);
    assert_eq!(view.arg(50), None);
    assert_eq!(view.arg_is_null(2), None);
    assert_eq!(view.args().len(), 2);
}

#[test]
fn slots_left_over_do_not_show() {
    let mut frame = FunctionCallInfoData::new(0, 0, &words(5)).unwrap();
    frame.nargs = 2;
    let view = FunctionCallInfo::new(&frame).unwrap();
    assert_eq!(view.args(), vec![Some(Datum::new(1000)), Some(Datum::new(1001))]);
    assert_eq!(view.arg(2), None);
    assert_eq!(view.arg(4), None);
}

#[test]
fn null_flag_decides_whatever_the_word_holds() {
    let mut frame = FunctionCallInfoData::new(0, 0, &words(3)).unwrap();
    frame.argnull[1] = true;
    let view = FunctionCallInfo::new(&frame).unwrap();
    assert_eq!(view.arg(1), Some(Datum::new(1001)));
    assert_eq!(view.arg_is_null(1), Some(true));
    assert_eq!(view.arg_is_null(0), Some(false));
    assert_eq!(view.args(), vec![Some(Datum::new(1000)), None, Some(Datum::new(1002))]);
}

#[test]
fn null_arguments_are_stored_as_flags() {
    let args = vec![None, Some(Datum::new(5)), None];
    let frame = FunctionCallInfoData::new(11, 22, &args).unwrap();
    assert_eq!(frame.nargs, 3);
    assert_eq!(frame.fl_info, 11);
    assert_eq!(frame.fn_collation, 22);
    assert_eq!(frame.context, 0);
    assert_eq!(frame.result_info, 0);
    assert!(!frame.is_null);
    assert!(frame.argnull[0]);
    assert!(!frame.argnull[1]);
    assert!(frame.argnull[2]);
    assert_eq!(frame.arg[1], Datum::new(5));
    assert!(frame.argnull[3..].iter().all(|flag| *flag));
    let view = FunctionCallInfo::new(&frame).unwrap();
    assert_eq!(view.args(), args);
}

#[test]
fn view_marks_the_result_null_and_nothing_else() {
    let frame = FunctionCallInfoData::new(0, 0, &words(1)).unwrap();
    let mut view = FunctionCallInfo::new(&frame).unwrap();
    assert!(!view.is_null());
    view.set_null(true);
    assert!(view.is_null());
    assert_eq!(view.nargs(), 1);
    assert_eq!(view.arg(0), Some(Datum::new(1000)));
    view.set_null(false);
    assert!(!view.is_null());
}

#[test]
fn view_starts_from_the_null_mark_of_the_frame() {
    let mut frame = FunctionCallInfoData::new(0, 0, &Vec::new()).unwrap();
    frame.is_null = true;
    let view = FunctionCallInfo::new(&frame).unwrap();
    assert!(view.is_null());
}

#[test]
fn fmgr_info_describes_the_called_function() {
    let info = FmgrInfo {
        fn_addr: 0x1000,
        fn_oid: 16384,
        fn_nargs: 1,
        fn_strict: true,
        fn_retset: false,
        fn_stats: 0,
        fn_extra: 0,
        fn_mcxt: 0x2000,
        fn_expr: 0,
    };
    assert_eq!(info.fn_nargs, 1);
    assert!(info.fn_strict);
    assert!(!info.fn_retset);
    assert_eq!(info.fn_oid, 16384);
}

fn is_zero(a: i32) -> i32 {
    if a == 0 {
        return 0;
    } else {
        return 0;
    }
}

fn call_is_zero(fcinfo: &mut FunctionCallInfo) -> Datum {
    match fcinfo.args()[0] {
        Some(word) => {
            let a = word.value() as u32 as i32;
            Datum::new(is_zero(a) as u32 as usize)
        }
        None => {
            fcinfo.set_null(true);
            Datum::new(0)
        }
    }
}

#[test]
fn is_zero_returns_zero_for_every_integer() {
    for a in [0, 1, -1, 7, 90500, i32::MAX, i32::MIN] {
        let args = vec![Some(Datum::new(a as u32 as usize))];
        let frame = FunctionCallInfoData::new(0, 0, &args).expect("one argument fits");
        assert!(!frame.argnull[0]);
        let mut view = FunctionCallInfo::new(&frame).expect("a valid frame");
        assert_eq!(view.nargs(), 1);
        let result = call_is_zero(&mut view);
        assert_eq!(result, Datum::new(0));
        assert_eq!(result.value(), 0);
        assert!(!view.is_null());
    }
}
