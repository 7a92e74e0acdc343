use carbon_simd::lanes::zip_lanes;
use carbon_simd::{SimdElement, SimdFloatingElement, SimdMut, SimdNumElement, SimdRef};

/// A single-precision element whose raw vector is an array of eight lanes.
///
/// The items that return `unreachable!()` are the specification's side of
/// the element traits: contracts speak of them and nothing calls them.
#[derive(Clone, Copy, Debug, PartialEq, PartialOrd)]
struct Single(f32);

impl SimdElement for Single {
    type Vector = [Single; 8];

    const VECTOR_LEN: usize = 8;

    fn width() -> usize {
        unreachable!()
    }

    fn lane(_v: Self::Vector, _i: usize) -> Self {
        unreachable!()
    }

    fn zero() -> Self {
        unreachable!()
    }

    fn available() -> bool {
        unreachable!()
    }

    fn lanes_shape(_v: Self::Vector) {
    }

    fn register_budget() {
    }

    fn is_available() -> bool {
        true
    }

    fn load(src: &[Self]) -> Self::Vector {
        let mut buff = [Single(0.0); 8];
        buff.copy_from_slice(&src[..8]);
        buff
    }

    fn load_partial(src: &[Self], len: usize) -> Self::Vector {
        let mut buff = [Single(0.0); 8];
        buff[..len].copy_from_slice(&src[..len]);
        buff
    }

    fn store(dst: &mut [Self], src: Self::Vector) {
        dst[..8].copy_from_slice(&src);
    }

    fn store_partial(dst: &mut [Self], src: Self::Vector, len: usize) {
        dst[..len].copy_from_slice(&src[..len]);
    }

    fn set(value: Self) -> Self::Vector {
        [value; 8]
    }
}

impl SimdNumElement for Single {
    fn one_value() -> Self {
        unreachable!()
    }

    fn add_lane(_a: Self, _b: Self) -> Self {
        unreachable!()
    }

    fn sub_lane(_a: Self, _b: Self) -> Self {
        unreachable!()
    }

    fn mul_lane(_a: Self, _b: Self) -> Self {
        unreachable!()
    }

    fn div_lane(_a: Self, _b: Self) -> Self {
        unreachable!()
    }

    fn fma_lane(_a: Self, _b: Self, _c: Self) -> Self {
        unreachable!()
    }

    fn unit() -> Self {
        Single(1.0)
    }

    fn add(left: Self::Vector, right: Self::Vector) -> Self::Vector {
        zip_lanes(&left, &right, |a: Single, b: Single| Single(a.0 + b.0))
    }

    fn sub(left: Self::Vector, right: Self::Vector) -> Self::Vector {
        zip_lanes(&left, &right, |a: Single, b: Single| Single(a.0 - b.0))
    }

    fn mul(left: Self::Vector, right: Self::Vector) -> Self::Vector {
        zip_lanes(&left, &right, |a: Single, b: Single| Single(a.0 * b.0))
    }

    fn div(left: Self::Vector, right: Self::Vector) -> Self::Vector {
        zip_lanes(&left, &right, |a: Single, b: Single| Single(a.0 / b.0))
    }

    fn fma(a: Self::Vector, b: Self::Vector, c: Self::Vector) -> Self::Vector {
        let mut out = a;
        for i in 0..8 {
            out[i] = Single(a[i].0.mul_add(b[i].0, c[i].0));
        }
        out
    }
}

impl SimdFloatingElement for Single {
    fn sqrt_lane(_x: Self) -> Self {
        unreachable!()
    }

    fn exp_lane(_x: Self) -> Self {
        unreachable!()
    }

    fn sqrt(x: Self::Vector) -> Self::Vector {
        x.map(|lane| Single(lane.0.sqrt()))
    }

    fn exp(x: Self::Vector) -> Self::Vector {
        x.map(|lane| Single(lane.0.exp()))
    }
}

/// A double-precision element whose raw vector is an array of four lanes.
///
/// The items that return `unreachable!()` are the specification's side of
/// the element traits: contracts speak of them and nothing calls them.
#[derive(Clone, Copy, Debug, PartialEq, PartialOrd)]
struct Double(f64);

impl SimdElement for Double {
    type Vector = [Double; 4];

    const VECTOR_LEN: usize = 4;

    fn width() -> usize {
        unreachable!()
    }

    fn lane(_v: Self::Vector, _i: usize) -> Self {
        unreachable!()
    }

    fn zero() -> Self {
        unreachable!()
    }

    fn available() -> bool {
        unreachable!()
    }

    fn lanes_shape(_v: Self::Vector) {
    }

    fn register_budget() {
    }

    fn is_available() -> bool {
        true
    }

    fn load(src: &[Self]) -> Self::Vector {
        let mut buff = [Double(0.0); 4];
        buff.copy_from_slice(&src[..4]);
        buff
    }

    fn load_partial(src: &[Self], len: usize) -> Self::Vector {
        let mut buff = [Double(0.0); 4];
        buff[..len].copy_from_slice(&src[..len]);
        buff
    }

    fn store(dst: &mut [Self], src: Self::Vector) {
        dst[..4].copy_from_slice(&src);
    }

    fn store_partial(dst: &mut [Self], src: Self::Vector, len: usize) {
        dst[..len].copy_from_slice(&src[..len]);
    }

    fn set(value: Self) -> Self::Vector {
        [value; 4]
    }
}

impl SimdNumElement for Double {
    fn one_value() -> Self {
        unreachable!()
    }

    fn add_lane(_a: Self, _b: Self) -> Self {
        unreachable!()
    }

    fn sub_lane(_a: Self, _b: Self) -> Self {
        unreachable!()
    }

    fn mul_lane(_a: Self, _b: Self) -> Self {
        unreachable!()
    }

    fn div_lane(_a: Self, _b: Self) -> Self {
        unreachable!()
    }

    fn fma_lane(_a: Self, _b: Self, _c: Self) -> Self {
        unreachable!()
    }

    fn unit() -> Self {
        Double(1.0)
    }

    fn add(left: Self::Vector, right: Self::Vector) -> Self::Vector {
        zip_lanes(&left, &right, |a: Double, b: Double| Double(a.0 + b.0))
    }

    fn sub(left: Self::Vector, right: Self::Vector) -> Self::Vector {
        zip_lanes(&left, &right, |a: Double, b: Double| Double(a.0 - b.0))
    }

    fn mul(left: Self::Vector, right: Self::Vector) -> Self::Vector {
        zip_lanes(&left, &right, |a: Double, b: Double| Double(a.0 * b.0))
    }

    fn div(left: Self::Vector, right: Self::Vector) -> Self::Vector {
        zip_lanes(&left, &right, |a: Double, b: Double| Double(a.0 / b.0))
    }

    fn fma(a: Self::Vector, b: Self::Vector, c: Self::Vector) -> Self::Vector {
        let mut out = a;
        for i in 0..4 {
            out[i] = Double(a[i].0.mul_add(b[i].0, c[i].0));
        }
        out
    }
}

impl SimdFloatingElement for Double {
    fn sqrt_lane(_x: Self) -> Self {
        unreachable!()
    }

    fn exp_lane(_x: Self) -> Self {
        unreachable!()
    }

    fn sqrt(x: Self::Vector) -> Self::Vector {
        x.map(|lane| Double(lane.0.sqrt()))
    }

    fn exp(x: Self::Vector) -> Self::Vector {
        x.map(|lane| Double(lane.0.exp()))
    }
}

fn singles(values: &[f32]) -> Vec<Single> {
    values.iter().map(|&v| Single(v)).collect()
}

fn doubles(values: &[f64]) -> Vec<Double> {
    values.iter().map(|&v| Double(v)).collect()
}

#[test]
fn tanh_of_single_precision_is_bounded_monotonic_and_odd() {
    assert!(Single::is_available());
    let mut values: Vec<Single> = (0..=20).map(|i| Single((i - 10) as f32)).collect();
    let mut simd = SimdMut::new(&mut values);
    simd.tanh();
    assert_eq!(values.len(), 21);
    assert_eq!(values[10], Single(0.0));
    for i in 0..21 {
        assert!(-1.0 <= values[i].0 && values[i].0 <= 1.0);
        assert_eq!(values[i].0.is_sign_negative(), i < 10);
        assert!((values[i].0 + values[20 - i].0).abs() < 1e-6);
        assert!((values[i].0 - ((i as f32) - 10.0).tanh()).abs() < 1e-6);
    }
    for i in 4..=16 {
        assert!(-1.0 < values[i].0 && values[i].0 < 1.0);
        assert!(values[i - 1].0 < values[i].0);
    }
    for i in 1..21 {
        assert!(values[i - 1].0 <= values[i].0);
    }
}

#[test]
fn tanh_of_double_precision_is_bounded_monotonic_and_odd() {
    let mut values: Vec<Double> = (0..=20).map(|i| Double((i - 10) as f64)).collect();
    SimdMut::new(&mut values).tanh();
    assert_eq!(values[10], Double(0.0));
    for i in 0..21 {
        assert!(-1.0 < values[i].0 && values[i].0 < 1.0);
        assert!((values[i].0 + values[20 - i].0).abs() < 1e-12);
        assert!((values[i].0 - ((i as f64) - 10.0).tanh()).abs() < 1e-12);
    }
    for i in 1..21 {
        assert!(values[i - 1].0 < values[i].0);
    }
}

#[test]
fn tanh_is_the_formula_on_each_lane() {
    let inputs = [-2.5f64, -0.5, 0.0, 0.25, 1.0, 3.0, 7.5];
    let mut values = doubles(&inputs);
    SimdMut::new(&mut values).tanh();
    for i in 0..inputs.len() {
        let expected = 1.0 - 2.0 / ((inputs[i] * 2.0).exp() + 1.0);
        assert_eq!(values[i].0, expected);
    }
}

#[test]
fn raw_tanh_of_zero_is_zero() {
    assert_eq!(Single::tanh(Single::set(Single(0.0))), [Single(0.0); 8]);
    assert_eq!(Double::tanh(Double::set(Double(0.0))), [Double(0.0); 4]);
}

#[test]
fn sqrt_works_on_chunks_and_tail() {
    let mut values: Vec<Single> = (0..19).map(|i| Single((i * i) as f32)).collect();
    SimdMut::new(&mut values).sqrt();
    for i in 0..19 {
        assert_eq!(values[i], Single(i as f32));
    }
}

#[test]
fn exp_works_on_chunks_and_tail() {
    let inputs = [0.0f64, 1.0, -1.0, 2.0, 0.5, 10.0];
    let mut values = doubles(&inputs);
    SimdMut::new(&mut values).exp();
    for i in 0..inputs.len() {
        assert_eq!(values[i].0, inputs[i].exp());
    }
    assert_eq!(values[0], Double(1.0));
}

#[test]
fn floating_division_by_zero_follows_the_arithmetic() {
    let mut left = singles(&[1.0, -1.0, 0.0, 8.0, 9.0]);
    let right = singles(&[0.0, 0.0, 0.0, 2.0, 3.0]);
    SimdMut::new(&mut left).div_assign(&SimdRef::new(&right));
    assert_eq!(left[0].0, f32::INFINITY);
    assert_eq!(left[1].0, f32::NEG_INFINITY);
    assert!(left[2].0.is_nan());
    assert_eq!(left[3], Single(4.0));
    assert_eq!(left[4], Single(3.0));
}

#[test]
fn floating_binary_operations_touch_the_common_prefix() {
    let mut left = doubles(&[1.5, 2.5, 3.5, 4.5, 5.5, 6.5]);
    let right = doubles(&[0.5, 0.5, 0.5, 0.5, 0.5]);
    SimdMut::new(&mut left).add_assign(&SimdRef::new(&right));
    assert_eq!(left, doubles(&[2.0, 3.0, 4.0, 5.0, 6.0, 6.5]));
    SimdMut::new(&mut left).sub_assign(&SimdRef::new(&right));
    assert_eq!(left, doubles(&[1.5, 2.5, 3.5, 4.5, 5.5, 6.5]));
    SimdMut::new(&mut left).mul_assign(&SimdRef::new(&right));
    assert_eq!(left, doubles(&[0.75, 1.25, 1.75, 2.25, 2.75, 6.5]));
}

#[test]
fn a_power_of_two_and_its_opposite_power_multiply_to_one() {
    for n in [1, 2, 5, 9] {
        let mut up = singles(&[2.0, 0.5, 4.0, -8.0, 1.0, 0.25, 16.0, -2.0, 32.0]);
        let mut down = up.clone();
        SimdMut::new(&mut up).powi(n);
        SimdMut::new(&mut down).powi(-n);
        SimdMut::new(&mut up).mul_assign(&SimdRef::new(&down));
        assert_eq!(up, singles(&[1.0; 9]));
    }
}

#[test]
fn a_power_and_its_opposite_power_multiply_to_about_one() {
    for n in [1, 2, 3, 6] {
        let mut up = doubles(&[3.0, 0.7, -1.3, 10.0, 1.1]);
        let mut down = up.clone();
        SimdMut::new(&mut up).powi(n);
        SimdMut::new(&mut down).powi(-n);
        SimdMut::new(&mut up).mul_assign(&SimdRef::new(&down));
        for value in up {
            assert!((value.0 - 1.0).abs() < 1e-12);
        }
    }
}

#[test]
fn floating_powi_multiplies_repeatedly() {
    let mut values = doubles(&[1.5, -2.0, 0.0]);
    SimdMut::new(&mut values).powi(3);
    assert_eq!(values, doubles(&[3.375, -8.0, 0.0]));
    let mut inverse = doubles(&[2.0, -4.0]);
    SimdMut::new(&mut inverse).powi(-2);
    assert_eq!(inverse, doubles(&[0.25, 0.0625]));
}
