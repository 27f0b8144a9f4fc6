use knx_rust::dpt::float_16::{DptValueTemp, DptValueWspKmh, Float16};
use knx_rust::dpt::unsigned_8::{DptAngle, DptDecimalFactor, DptPercentU8, DptScaling};
use knx_rust::dpt::DPT;
use knx_rust::knxnet::KnxNetIpError;

fn from_f32(f: f32) -> Float16 {
    Float16::from_ieee_bits((f * 100f32).to_bits())
}

fn as_f32(value: Float16) -> f32 {
    0.01f32 * value.hundredths() as f32
}

#[test]
fn f16_enc_tests() {
    assert_eq!(from_f32(0f32), Float16::from_raw(0));
    assert_eq!(from_f32(1.0f32), Float16::from_raw(100));
    assert_eq!(from_f32(0.01f32), Float16::from_raw(1));
    assert_eq!(from_f32(-1f32), Float16::from_raw(0x879c));
    assert_eq!(from_f32(20.48f32), Float16::from_raw(0x0C00));
}

#[test]
fn f16_dec_test() {
    assert_eq!(as_f32(Float16::from_raw(0)), 0f32);
    assert_eq!(as_f32(Float16::from_raw(100)), 1f32);
    assert_eq!(as_f32(Float16::from_raw(1)), 0.01f32);
    assert_eq!(as_f32(Float16::from_raw(0x879c)), -1f32);
    assert_eq!(as_f32(Float16::from_raw(0xc00)), 20.48f32);
}

#[test]
fn float16_encodes_from_the_bit_pattern() {
    assert_eq!(Float16::from_ieee_bits(0).raw(), 0x0000);
    assert_eq!(Float16::from_ieee_bits(0x8000_0000).raw(), 0x0000);
    assert_eq!(Float16::from_ieee_bits(0x0000_0001).raw(), 0x0000);
    assert_eq!(Float16::from_ieee_bits(100f32.to_bits()).raw(), 0x0064);
    assert_eq!(Float16::from_ieee_bits(1f32.to_bits()).raw(), 0x0001);
    assert_eq!(Float16::from_ieee_bits((-100f32).to_bits()).raw(), 0x879C);
    assert_eq!(Float16::from_ieee_bits(2048f32.to_bits()).raw(), 0x0C00);
    assert_eq!(Float16::from_ieee_bits(2047f32.to_bits()).raw(), 0x07FF);
    assert_eq!(Float16::from_ieee_bits(0.25f32.to_bits()).raw(), 0x0000);
    assert_eq!(Float16::from_ieee_bits((-0.25f32).to_bits()).raw(), 0x0000);
    assert_eq!(Float16::from_ieee_bits(67_076_096f32.to_bits()).raw(), 0x7FFF);
    assert_eq!(Float16::from_ieee_bits((-2048f32).to_bits()).raw(), 0x8C00);
}

#[test]
fn float16_decodes_to_whole_hundredths() {
    assert_eq!(Float16::from_raw(0x0000).hundredths(), 0);
    assert_eq!(Float16::from_raw(0x0064).hundredths(), 100);
    assert_eq!(Float16::from_raw(0x0001).hundredths(), 1);
    assert_eq!(Float16::from_raw(0x879C).hundredths(), -100);
    assert_eq!(Float16::from_raw(0x0C00).hundredths(), 2048);
    assert_eq!(Float16::from_raw(0x7FFF).hundredths(), 0x7FF << 15);
    assert_eq!(Float16::from_raw(0x87FF).hundredths(), -1);
    assert_eq!(Float16::from_raw(0xF801).hundredths(), -(0x7FF << 15));
    assert_eq!(Float16::from_raw(0x8000).hundredths(), 0);
}

#[test]
fn float16_round_trips_within_its_eleven_bits() {
    for hundredths in [0i32, 1, 2, 100, 1000, 2047, 2048, 4094, 20480, 1 << 20] {
        let value = Float16::from_ieee_bits((hundredths as f32).to_bits());
        assert_eq!(value.hundredths(), hundredths);
    }
    for hundredths in [-1i32, -2, -100, -2047, -2048, -4094] {
        let value = Float16::from_ieee_bits((hundredths as f32).to_bits());
        assert_eq!(value.hundredths(), hundredths);
    }
}

#[test]
fn float16_is_two_bytes_high_byte_first() {
    let mut buf = vec![];
    Float16::from_raw(0x0C1A).encode(&mut buf);
    assert_eq!(buf, vec![0x0C, 0x1A]);
    assert_eq!(Float16::from_raw(0).bit_len(), 16);
    let mut value = Float16::default();
    assert_eq!(value.decode(&[0x87, 0x9C, 0xFF]), Ok(()));
    assert_eq!(value.raw(), 0x879C);
    assert_eq!(value.decode(&[0x87]), Err(KnxNetIpError::MessageTooShort(1)));
    assert_eq!(value.raw(), 0x879C);
}

#[test]
fn unit_types_are_floats_of_two_bytes() {
    let temperature = DptValueTemp::from_bytes(&[0x0C, 0x1A]).unwrap();
    assert_eq!(temperature.hundredths(), 0x41A << 1);
    assert_eq!(temperature, DptValueTemp::from_ieee_bits(2100f32.to_bits()));
    let mut buf = vec![];
    temperature.encode(&mut buf);
    assert_eq!(buf, vec![0x0C, 0x1A]);
    assert_eq!(temperature.bit_len(), 16);
    assert_eq!(DptValueTemp::from_bytes(&[0x0C]), Err(KnxNetIpError::MessageTooShort(1)));
    assert_eq!(DptValueWspKmh::default().hundredths(), 0);
    assert_eq!(DptValueWspKmh::from_ieee_bits(100f32.to_bits()).hundredths(), 100);
}

#[test]
fn scaled_types_are_one_byte() {
    let half = DptScaling::from_bytes(&[0x80]).unwrap();
    assert_eq!(half.raw(), 0x80);
    assert_eq!(half, DptScaling::from_raw(128));
    let mut buf = vec![];
    half.encode(&mut buf);
    assert_eq!(buf, vec![0x80]);
    assert_eq!(half.bit_len(), 8);
    assert_eq!(DptScaling::from_bytes(&[]), Err(KnxNetIpError::MessageTooShort(0)));
    assert_eq!(DptScaling::range(), (0, 100));
    assert_eq!(DptAngle::range(), (0, 360));
    assert_eq!(DptPercentU8::range(), (0, 255));
    assert_eq!(DptDecimalFactor::range(), (0, 255));
    assert_eq!(DptAngle::default().raw(), 0);
    let mut factor = DptDecimalFactor::from_raw(1);
    assert_eq!(factor.decode(&[0xFF, 0x00]), Ok(()));
    assert_eq!(factor.raw(), 255);
}

#[test]
fn scaled_value_follows_the_linear_formula() {
    let (min, max) = DptScaling::range();
    let (min, max) = (min as f32, max as f32);
    let encode = |v: f32| DptScaling::from_raw(((v.max(min).min(max) - min) * 255.0 / (max - min)).round() as u8);
    let decode = |d: DptScaling| d.raw() as f32 * (max - min) / 255.0 + min;
    assert_eq!(encode(0.0).raw(), 0);
    assert_eq!(encode(100.0).raw(), 255);
    assert_eq!(encode(50.0).raw(), 128);
    assert_eq!(encode(150.0).raw(), 255);
    assert_eq!(encode(-3.0).raw(), 0);
    assert_eq!(decode(DptScaling::from_raw(255)), 100.0);
    assert_eq!(decode(DptScaling::from_raw(0)), 0.0);
    assert_eq!(decode(DptScaling::from_raw(51)), 20.0);
}
