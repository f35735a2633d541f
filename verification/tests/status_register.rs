use fc::cpu::status_register::{flag_n, flag_z, StatusRegister};

#[test]
fn it_n() {
    assert_eq!(StatusRegister(0b1000_0000).n(), true);
    assert_eq!(StatusRegister(0b0000_0000).n(), false);
}

#[test]
fn it_o() {
    assert_eq!(StatusRegister(0b0100_0000).v(), true);
    assert_eq!(StatusRegister(0b0000_0000).v(), false);
}

#[test]
fn it_b() {
    assert_eq!(StatusRegister(0b0001_0000).b(), true);
    assert_eq!(StatusRegister(0b0000_0000).b(), false);
}

#[test]
fn it_d() {
    assert_eq!(StatusRegister(0b0000_1000).d(), true);
    assert_eq!(StatusRegister(0b0000_0000).d(), false);
}

#[test]
fn it_i() {
    assert_eq!(StatusRegister(0b0000_0100).i(), true);
    assert_eq!(StatusRegister(0b0000_0000).i(), false);
}

#[test]
fn it_z() {
    assert_eq!(StatusRegister(0b0000_0010).z(), true);
    assert_eq!(StatusRegister(0b0000_0000).z(), false);
}

#[test]
fn it_c() {
    assert_eq!(StatusRegister(0b0000_0001).c(), true);
    assert_eq!(StatusRegister(0b0000_0000).c(), false);
}

#[test]
fn power_on_flags() {
    let p = StatusRegister::new();
    assert_eq!(u8::from(p), 0b0011_0100);
    assert!(!p.n() && !p.v() && p.r() && p.b() && !p.d() && p.i() && !p.z() && !p.c());
}

#[test]
fn reserved_always_reads_as_set() {
    assert!(StatusRegister::from(0x00).r());
    assert!(StatusRegister::from(0xff).r());
    assert_eq!(u8::from(StatusRegister::from(0x00).set_r(true)), 0b0010_0000);
    assert_eq!(u8::from(StatusRegister::from(0xff).set_r(true)), 0xff);
}

#[test]
fn setters_touch_one_flag_each() {
    for v in [0x00u8, 0xff, 0x34, 0xa5] {
        let p = StatusRegister::from(v);
        assert_eq!(u8::from(p.set_n(true)), v | 0x80);
        assert_eq!(u8::from(p.set_n(false)), v & 0x7f);
        assert_eq!(u8::from(p.set_v(true)), v | 0x40);
        assert_eq!(u8::from(p.set_v(false)), v & 0xbf);
        assert_eq!(u8::from(p.set_b(true)), v | 0x10);
        assert_eq!(u8::from(p.set_b(false)), v & 0xef);
        assert_eq!(u8::from(p.set_d(true)), v | 0x08);
        assert_eq!(u8::from(p.set_d(false)), v & 0xf7);
        assert_eq!(u8::from(p.set_i(true)), v | 0x04);
        assert_eq!(u8::from(p.set_i(false)), v & 0xfb);
        assert_eq!(u8::from(p.set_z(true)), v | 0x02);
        assert_eq!(u8::from(p.set_z(false)), v & 0xfd);
        assert_eq!(u8::from(p.set_c(true)), v | 0x01);
        assert_eq!(u8::from(p.set_c(false)), v & 0xfe);
        assert_eq!(u8::from(p), v);
    }
}

#[test]
fn a_setter_returns_a_new_byte() {
    let p = StatusRegister::from(0x00);
    let q = p.set_c(true).set_z(true);
    assert_eq!(p, StatusRegister(0x00));
    assert_eq!(q, StatusRegister(0x03));
    assert!(q.c() && q.z() && !q.n());
}

#[test]
fn flags_of_a_result() {
    assert!(flag_n(0x80));
    assert!(flag_n(0xff));
    assert!(!flag_n(0x7f));
    assert!(!flag_n(0x00));
    assert!(flag_z(0x00));
    assert!(!flag_z(0x01));
    assert!(!flag_z(0x80));
}
