use postgres_extension::{pg_module, Pg_magic_func, Pg_magic_struct};

#[test]
fn version_loses_its_last_two_digits() {
    assert_eq!(pg_module(90500).version, 905);
    assert_eq!(pg_module(90599).version, 905);
    assert_eq!(pg_module(100000).version, 1000);
    assert_eq!(pg_module(99).version, 0);
    assert_eq!(pg_module(0).version, 0);
    assert_eq!(pg_module(i32::MAX).version, 21474836);
}

#[test]
fn negative_version_rounds_towards_zero() {
    assert_eq!(pg_module(-1).version, 0);
    assert_eq!(pg_module(-150).version, -1);
    assert_eq!(pg_module(-199).version, -1);
    assert_eq!(pg_module(-200).version, -2);
    assert_eq!(pg_module(i32::MIN).version, -21474836);
}

#[test]
fn build_parameters_are_fixed() {
    for v in [0, 90500, -7, i32::MAX] {
        let d = pg_module(v);
        assert_eq!(d.funcmaxargs, 100);
        assert_eq!(d.indexmaxkeys, 32);
        assert_eq!(d.nameddatalen, 64);
        assert_eq!(d.float4byval, 1);
        assert_eq!(d.float8byval, 1);
    }
}

#[test]
fn size_is_filled_in_by_the_accessor() {
    let mut data = pg_module(90500);
    assert_eq!(data.len, 0);
    let read = *Pg_magic_func(&mut data);
    assert_eq!(read.len as usize, std::mem::size_of::<Pg_magic_struct>());
    assert_eq!(read.len, 28);
    assert_eq!(
        read,
        Pg_magic_struct {
            len: 28,
            version: 905,
            funcmaxargs: 100,
            indexmaxkeys: 32,
            nameddatalen: 64,
            float4byval: 1,
            float8byval: 1,
        }
    );
    assert_eq!(data, read);
}

#[test]
fn accessor_hands_out_the_same_values_every_time() {
    let mut data = pg_module(90500);
    let first = *Pg_magic_func(&mut data);
    let second = *Pg_magic_func(&mut data);
    let third = *Pg_magic_func(&mut data);
    assert_eq!(first, second);
    assert_eq!(second, third);
    assert_eq!(data, first);
}

#[test]
fn accessor_hands_out_the_record_itself() {
    let mut data = pg_module(90400);
    let read: &Pg_magic_struct = Pg_magic_func(&mut data);
    assert_eq!(read.version, 904);
    assert_eq!(read.len, 28);
    assert_eq!(data.len, 28);
}

#[test]
fn accessor_corrects_a_wrong_size_only() {
    let mut data = Pg_magic_struct {
        len: -5,
        version: 1,
        funcmaxargs: 2,
        indexmaxkeys: 3,
        nameddatalen: 4,
        float4byval: 5,
        float8byval: 6,
    };
    let read = *Pg_magic_func(&mut data);
    assert_eq!(read.len, 28);
    assert_eq!(read.version, 1);
    assert_eq!(read.funcmaxargs, 2);
    assert_eq!(read.indexmaxkeys, 3);
    assert_eq!(read.nameddatalen, 4);
    assert_eq!(read.float4byval, 5);
    assert_eq!(read.float8byval, 6);
}
