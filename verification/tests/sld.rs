use core_sim::fpu::Fpu;
use core_sim::io::Input;
use core_sim::ppm::{parse_ppmv6_header, PPMData, PPMHeaderInfo};
use core_sim::io::Output;
use core_sim::sld::{float_end, int_at, SldData, SldDataBuilder, SldError};
use core_sim::ty::Ty;

struct HostFpu;

fn f(bits: u32) -> f32 {
    f32::from_bits(bits)
}

impl Fpu for HostFpu {
    fn fadd(&self, a: u32, b: u32) -> u32 {
        (f(a) + f(b)).to_bits()
    }
    fn fsub(&self, a: u32, b: u32) -> u32 {
        (f(a) - f(b)).to_bits()
    }
    fn fmul(&self, a: u32, b: u32) -> u32 {
        (f(a) * f(b)).to_bits()
    }
    fn fdiv(&self, a: u32, b: u32) -> u32 {
        (f(a) / f(b)).to_bits()
    }
    fn fsqrt(&self, a: u32) -> u32 {
        f(a).sqrt().to_bits()
    }
    fn fhalf(&self, a: u32) -> u32 {
        (f(a) * 0.5).to_bits()
    }
    fn ffloor(&self, a: u32) -> u32 {
        f(a).floor().to_bits()
    }
    fn ffrac(&self, a: u32) -> u32 {
        (f(a) - f(a).floor()).to_bits()
    }
    fn finv(&self, a: u32) -> u32 {
        (1.0 / f(a)).to_bits()
    }
    fn fcvtsw(&self, a: i32) -> u32 {
        (a as f32).to_bits()
    }
    fn fcvtws(&self, a: u32) -> i32 {
        f(a).round() as i32
    }
    fn from_decimal(&self, text: &[u8]) -> u32 {
        std::str::from_utf8(text).unwrap().parse::<f32>().unwrap().to_bits()
    }
}

#[test]
fn test_sld_float() {
    let mut b = SldDataBuilder::new();
    b.read_float("-200.0".as_bytes(), 0, &HostFpu).unwrap();
    b.read_float("1.0".as_bytes(), 0, &HostFpu).unwrap();
    assert_eq!(
        f32::from_bits(b.seq[0].as_f32().unwrap()),
        "-200.0".parse::<f32>().unwrap()
    );
    assert_eq!(
        f32::from_bits(b.seq[1].as_f32().unwrap()),
        "1.0".parse::<f32>().unwrap()
    );
}

const SCENE: &str = "-70  35 -20      20 30
1 50 50
255
0 1 1 0    20  20  65    0  20  45  1 1.0 250 128 210   0
0 3 1 0    25  40  70    0   0  40  1 1.0 250 128 210   0
0 3 1 0     0  30  30    0  -5   0 -1 1.0 250 128 211   0
0 1 1 0    20  10  30    0 -10  80  1 1.0 250 128 211   0
0 2 1 0     0 -1.5 -1    0   0  50  1 1.0 250 128 211   0
0 1 1 0    22  28  28    0  -5   0  1 1.0 250   0 211 211
0 3 1 0    40  28  28    0  -5   0  1 1.0 250   0 211 211
0 3 1 0     0  15  15    0  -5   0 -1 1.0 250   0 211 211
0 3 1 0    15  25  25    0  -5  70  1 1.0 250 211   0   0
0 1 1 0     5  11  45    0  35  40  1 1.0 250 211 128   0
0 3 1 0    30  45  75    0   0  40  1 1.0 250 211 128   0
0 1 1 0    25  41  70    0   5  40  1 1.0 250   0   0   0
1 1 1 0   100   5 200    0 -35 150  1 1.0 250 200 200 200
0 3 1 0    25  10  10    0  -5   0  1 1.0 250 211 128 128
0 3 2 0    25  20  20    0   0  70  1 0.3   0   0   0 255
2 3 1 0	   20  20  20  100  40 120  1 1.0 150 255 255 255
0 2 2 0     0   0  -1    0   0 200  1 0.2   0 255   0   0     
-1
0 1 2 -1
3 1 4 -1
5 6 7 -1
8 -1
9 10 -1
12 -1
13 -1
14 -1
15 -1
16 -1
-1
11 0 1 2 3 4 6 -1
99 9 8 7 5 -1
-1
";

#[test]
fn test_sld_parse() {
    let b = SldData::parse(SCENE, &HostFpu).unwrap();
    assert_eq!(b.remaining(), 325);
    assert_eq!(
        f32::from_bits(b.peek(1).unwrap().as_f32().unwrap()),
        "35".parse::<f32>().unwrap()
    );
    assert_eq!(
        b.peek(324).unwrap().as_i32().unwrap(),
        "-1".parse::<i32>().unwrap()
    );
    assert_eq!(b.num_objects(), 17);
}

#[test]
fn a_scene_is_read_in_order_with_its_types() {
    let mut d = SldData::parse(SCENE, &HostFpu).unwrap();
    for expected in [-70.0f32, 35.0, -20.0, 20.0, 30.0] {
        assert_eq!(f32::from_bits(d.finw().unwrap()), expected);
    }
    // the next number is an integer
    let e = d.finw().unwrap_err();
    assert_eq!(e.message, "attempted to read i32 data as f32: at index 5");
    assert_eq!(d.remaining(), 320);
    assert_eq!(d.inw().unwrap(), 1);
    let e = d.inw().unwrap_err();
    assert_eq!(e.message, "attempted to read f32 data as i32: at index 6");
    assert_eq!(f32::from_bits(d.finw().unwrap()), 50.0);
    assert_eq!(d.peek(0).unwrap().ty, Ty::F32);
}

#[test]
fn an_exhausted_scene_fails() {
    let mut d = SldData::parse("0 0 0 0 0 1 0 0 0 -1 -1 -1", &HostFpu).unwrap();
    assert_eq!(d.num_objects(), 0);
    assert_eq!(d.remaining(), 12);
    for _ in 0..5 {
        d.finw().unwrap();
    }
    d.inw().unwrap();
    for _ in 0..3 {
        d.finw().unwrap();
    }
    for _ in 0..3 {
        assert_eq!(d.inw().unwrap(), (-1i32) as u32);
    }
    assert_eq!(d.inw().unwrap_err().message, "input exhausted");
    assert_eq!(d.finw().unwrap_err().message, "input exhausted");
}

#[test]
fn a_rotated_object_has_three_more_floats() {
    let plain = "0 0 0 0 0 1 0 0 0  0 1 1 0 1 2 3 4 5 6 7 8 9 10 11 12 -1 -1 -1";
    assert_eq!(SldData::parse(plain, &HostFpu).unwrap().remaining(), 9 + 16 + 3);
    let rotated = "0 0 0 0 0 1 0 0 0  0 1 1 1 1 2 3 4 5 6 7 8 9 10 11 12 13 14 15 -1 -1 -1";
    let d = SldData::parse(rotated, &HostFpu).unwrap();
    assert_eq!(d.remaining(), 9 + 19 + 3);
    assert_eq!(d.num_objects(), 1);
    // without the three floats the -1 that ends the objects is taken for a float
    let short = "0 0 0 0 0 1 0 0 0  0 1 1 1 1 2 3 4 5 6 7 8 9 10 11 12 -1 -1 -1";
    assert!(SldData::parse(short, &HostFpu).is_err());
}

#[test]
fn an_integer_ends_where_its_digits_end() {
    // the integer of the environment is 1; `.5` is the float behind it
    let d = SldData::parse("0 0 0 0 0 1.5 0 0 -1 -1 -1", &HostFpu).unwrap();
    assert_eq!(d.peek(5).unwrap().as_i32(), Some(1));
    assert_eq!(d.peek(6).unwrap().as_f32(), Some(0.5f32.to_bits()));
    assert_eq!(d.remaining(), 12);
}

#[test]
fn scenes_that_are_no_scenes() {
    assert_eq!(
        SldData::parse("", &HostFpu).err(),
        Some(SldError::FloatExpected { at: 0 })
    );
    assert_eq!(
        SldData::parse("1 2 x", &HostFpu).err(),
        Some(SldError::FloatExpected { at: 4 })
    );
    assert_eq!(
        SldData::parse("0 0 0 0 0 x 0 0 0 -1 -1 -1", &HostFpu).err(),
        Some(SldError::IntExpected { at: 10 })
    );
    assert_eq!(
        SldData::parse("0 0 0 0 0 1 0 0 0 -1 -1", &HostFpu).err(),
        Some(SldError::IntExpected { at: 23 })
    );
    assert_eq!(
        SldError::IntExpected { at: 23 }.message(),
        "failed to parse: integer expected at byte 23"
    );
    assert_eq!(
        SldError::FloatExpected { at: 4 }.message(),
        "failed to parse: float expected at byte 4"
    );
}

#[test]
fn integers_and_floats_as_text() {
    assert_eq!(int_at("42 ".as_bytes(), 0), Some((42, 2)));
    assert_eq!(int_at("-1".as_bytes(), 0), Some((-1, 2)));
    assert_eq!(int_at("+7x".as_bytes(), 0), Some((7, 2)));
    assert_eq!(int_at("2147483647".as_bytes(), 0), Some((i32::MAX, 10)));
    assert_eq!(int_at("2147483648".as_bytes(), 0), None);
    assert_eq!(int_at("-2147483648".as_bytes(), 0), Some((i32::MIN, 11)));
    assert_eq!(int_at("-2147483649".as_bytes(), 0), None);
    assert_eq!(int_at("0000000000000012".as_bytes(), 0), Some((12, 16)));
    assert_eq!(int_at("-".as_bytes(), 0), None);
    assert_eq!(int_at("x".as_bytes(), 0), None);
    assert_eq!(int_at("".as_bytes(), 0), None);
    assert_eq!(float_end("1.5 ".as_bytes(), 0), Some(3));
    assert_eq!(float_end("-200.0".as_bytes(), 0), Some(6));
    assert_eq!(float_end("35".as_bytes(), 0), Some(2));
    assert_eq!(float_end("1.".as_bytes(), 0), Some(2));
    assert_eq!(float_end(".5x".as_bytes(), 0), Some(2));
    assert_eq!(float_end("1e5".as_bytes(), 0), Some(3));
    assert_eq!(float_end("1.5E-3 ".as_bytes(), 0), Some(6));
    assert_eq!(float_end("1e".as_bytes(), 0), None);
    assert_eq!(float_end("1e+".as_bytes(), 0), None);
    assert_eq!(float_end(".".as_bytes(), 0), None);
    assert_eq!(float_end("-".as_bytes(), 0), None);
    assert_eq!(float_end("e5".as_bytes(), 0), None);
}

#[test]
fn picture_headers() {
    assert_eq!(
        parse_ppmv6_header(b"P6\n128 128\n255\n\x00\x01"),
        Ok(PPMHeaderInfo { width: 128, height: 128, color: 255 })
    );
    assert_eq!(
        parse_ppmv6_header(b"P6 1\t2\r\n4294967295 "),
        Ok(PPMHeaderInfo { width: 1, height: 2, color: 4294967295 })
    );
    assert!(parse_ppmv6_header(b"P5\n128 128\n255\n").is_err());
    assert!(parse_ppmv6_header(b"P6128 128\n255\n").is_err());
    assert!(parse_ppmv6_header(b"P6\n128 128\n255").is_err());
    assert!(parse_ppmv6_header(b"P6\n128 128\n4294967296\n").is_err());
    assert!(parse_ppmv6_header(b"P6\n128 -128\n255\n").is_err());
    assert!(parse_ppmv6_header(b"P").is_err());
    let mut p = PPMData::new();
    for c in b"P6\n2 1\n255\n" {
        p.outb(*c).unwrap();
    }
    assert_eq!(p.verify_header(), Ok(PPMHeaderInfo { width: 2, height: 1, color: 255 }));
    p.outb(7).unwrap();
    assert_eq!(p.into_inner(), b"P6\n2 1\n255\n\x07".to_vec());
    assert!(PPMData::default().verify_header().is_err());
    assert_eq!(
        PPMData::new().verify_header().unwrap_err().message(),
        "invalid header had been generated. failed to parse header: unexpected byte at 0"
    );
}

#[test]
fn a_scene_error_is_an_input_error() {
    let e = SldError::FloatExpected { at: 4 }.into_input_error();
    assert_eq!(
        e,
        core_sim::cpu::InputError::ParseSld("failed to parse: float expected at byte 4".to_string())
    );
}
