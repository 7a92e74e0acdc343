//! Loads and stores of the array-backed vectors.
use vstd::prelude::*;
use crate::element::SimdElement;
use crate::lanes::copy_prefix;

verus! {

impl SimdElement for i8 {
    type Vector = [i8; 32];

    const VECTOR_LEN: usize = 32;

    open spec fn width() -> usize {
        32
    }

    open spec fn lane(v: Self::Vector, i: usize) -> Self {
        v@[i as int]
    }

    open spec fn lanes(v: Self::Vector) -> Seq<Self> {
        v@
    }

    open spec fn zero() -> Self {
        0
    }

    open spec fn available() -> bool {
        true
    }

    proof fn lanes_shape(v: Self::Vector) {
    }

    proof fn register_budget() {
        broadcast use vstd::layout::layout_of_primitives;
    }

    fn is_available() -> (b: bool) {
        true
    }

    fn load(src: &[Self]) -> (v: Self::Vector) {
        let mut buff = [0i8; 32];
        copy_prefix(&mut buff, src, 32);
        buff
    }

    fn load_partial(src: &[Self], len: usize) -> (v: Self::Vector) {
        let mut buff = [0i8; 32];
        copy_prefix(&mut buff, src, len);
        Self::load(&buff)
    }

    fn store(dst: &mut [Self], src: Self::Vector) {
        copy_prefix(dst, &src, 32);
    }

    fn store_partial(dst: &mut [Self], src: Self::Vector, len: usize) {
        let mut buff = [0i8; 32];
        Self::store(&mut buff, src);
        copy_prefix(dst, &buff, len);
    }

    fn set(value: Self) -> (v: Self::Vector) {
        [value; 32]
    }
}

impl SimdElement for u8 {
    type Vector = [u8; 32];

    const VECTOR_LEN: usize = 32;

    open spec fn width() -> usize {
        32
    }

    open spec fn lane(v: Self::Vector, i: usize) -> Self {
        v@[i as int]
    }

    open spec fn lanes(v: Self::Vector) -> Seq<Self> {
        v@
    }

    open spec fn zero() -> Self {
        0
    }

    open spec fn available() -> bool {
        true
    }

    proof fn lanes_shape(v: Self::Vector) {
    }

    proof fn register_budget() {
        broadcast use vstd::layout::layout_of_primitives;
    }

    fn is_available() -> (b: bool) {
        true
    }

    fn load(src: &[Self]) -> (v: Self::Vector) {
        let mut buff = [0u8; 32];
        copy_prefix(&mut buff, src, 32);
        buff
    }

    fn load_partial(src: &[Self], len: usize) -> (v: Self::Vector) {
        let mut buff = [0u8; 32];
        copy_prefix(&mut buff, src, len);
        Self::load(&buff)
    }

    fn store(dst: &mut [Self], src: Self::Vector) {
        copy_prefix(dst, &src, 32);
    }

    fn store_partial(dst: &mut [Self], src: Self::Vector, len: usize) {
        let mut buff = [0u8; 32];
        Self::store(&mut buff, src);
        copy_prefix(dst, &buff, len);
    }

    fn set(value: Self) -> (v: Self::Vector) {
        [value; 32]
    }
}

impl SimdElement for i16 {
    type Vector = [i16; 16];

    const VECTOR_LEN: usize = 16;

    open spec fn width() -> usize {
        16
    }

    open spec fn lane(v: Self::Vector, i: usize) -> Self {
        v@[i as int]
    }

    open spec fn lanes(v: Self::Vector) -> Seq<Self> {
        v@
    }

    open spec fn zero() -> Self {
        0
    }

    open spec fn available() -> bool {
        true
    }

    proof fn lanes_shape(v: Self::Vector) {
    }

    proof fn register_budget() {
        broadcast use vstd::layout::layout_of_primitives;
    }

    fn is_available() -> (b: bool) {
        true
    }

    fn load(src: &[Self]) -> (v: Self::Vector) {
        let mut buff = [0i16; 16];
        copy_prefix(&mut buff, src, 16);
        buff
    }

    fn load_partial(src: &[Self], len: usize) -> (v: Self::Vector) {
        let mut buff = [0i16; 16];
        copy_prefix(&mut buff, src, len);
        Self::load(&buff)
    }

    fn store(dst: &mut [Self], src: Self::Vector) {
        copy_prefix(dst, &src, 16);
    }

    fn store_partial(dst: &mut [Self], src: Self::Vector, len: usize) {
        let mut buff = [0i16; 16];
        Self::store(&mut buff, src);
        copy_prefix(dst, &buff, len);
    }

    fn set(value: Self) -> (v: Self::Vector) {
        [value; 16]
    }
}

impl SimdElement for u16 {
    type Vector = [u16; 16];

    const VECTOR_LEN: usize = 16;

    open spec fn width() -> usize {
        16
    }

    open spec fn lane(v: Self::Vector, i: usize) -> Self {
        v@[i as int]
    }

    open spec fn lanes(v: Self::Vector) -> Seq<Self> {
        v@
    }

    open spec fn zero() -> Self {
        0
    }

    open spec fn available() -> bool {
        true
    }

    proof fn lanes_shape(v: Self::Vector) {
    }

    proof fn register_budget() {
        broadcast use vstd::layout::layout_of_primitives;
    }

    fn is_available() -> (b: bool) {
        true
    }

    fn load(src: &[Self]) -> (v: Self::Vector) {
        let mut buff = [0u16; 16];
        copy_prefix(&mut buff, src, 16);
        buff
    }

    fn load_partial(src: &[Self], len: usize) -> (v: Self::Vector) {
        let mut buff = [0u16; 16];
        copy_prefix(&mut buff, src, len);
        Self::load(&buff)
    }

    fn store(dst: &mut [Self], src: Self::Vector) {
        copy_prefix(dst, &src, 16);
    }

    fn store_partial(dst: &mut [Self], src: Self::Vector, len: usize) {
        let mut buff = [0u16; 16];
        Self::store(&mut buff, src);
        copy_prefix(dst, &buff, len);
    }

    fn set(value: Self) -> (v: Self::Vector) {
        [value; 16]
    }
}

impl SimdElement for i32 {
    type Vector = [i32; 8];

    const VECTOR_LEN: usize = 8;

    open spec fn width() -> usize {
        8
    }

    open spec fn lane(v: Self::Vector, i: usize) -> Self {
        v@[i as int]
    }

    open spec fn lanes(v: Self::Vector) -> Seq<Self> {
        v@
    }

    open spec fn zero() -> Self {
        0
    }

    open spec fn available() -> bool {
        true
    }

    proof fn lanes_shape(v: Self::Vector) {
    }

    proof fn register_budget() {
        broadcast use vstd::layout::layout_of_primitives;
    }

    fn is_available() -> (b: bool) {
        true
    }

    fn load(src: &[Self]) -> (v: Self::Vector) {
        let mut buff = [0i32; 8];
        copy_prefix(&mut buff, src, 8);
        buff
    }

    fn load_partial(src: &[Self], len: usize) -> (v: Self::Vector) {
        let mut buff = [0i32; 8];
        copy_prefix(&mut buff, src, len);
        Self::load(&buff)
    }

    fn store(dst: &mut [Self], src: Self::Vector) {
        copy_prefix(dst, &src, 8);
    }

    fn store_partial(dst: &mut [Self], src: Self::Vector, len: usize) {
        let mut buff = [0i32; 8];
        Self::store(&mut buff, src);
        copy_prefix(dst, &buff, len);
    }

    fn set(value: Self) -> (v: Self::Vector) {
        [value; 8]
    }
}

impl SimdElement for u32 {
    type Vector = [u32; 8];

    const VECTOR_LEN: usize = 8;

    open spec fn width() -> usize {
        8
    }

    open spec fn lane(v: Self::Vector, i: usize) -> Self {
        v@[i as int]
    }

    open spec fn lanes(v: Self::Vector) -> Seq<Self> {
        v@
    }

    open spec fn zero() -> Self {
        0
    }

    open spec fn available() -> bool {
        true
    }

    proof fn lanes_shape(v: Self::Vector) {
    }

    proof fn register_budget() {
        broadcast use vstd::layout::layout_of_primitives;
    }

    fn is_available() -> (b: bool) {
        true
    }

    fn load(src: &[Self]) -> (v: Self::Vector) {
        let mut buff = [0u32; 8];
        copy_prefix(&mut buff, src, 8);
        buff
    }

    fn load_partial(src: &[Self], len: usize) -> (v: Self::Vector) {
        let mut buff = [0u32; 8];
        copy_prefix(&mut buff, src, len);
        Self::load(&buff)
    }

    fn store(dst: &mut [Self], src: Self::Vector) {
        copy_prefix(dst, &src, 8);
    }

    fn store_partial(dst: &mut [Self], src: Self::Vector, len: usize) {
        let mut buff = [0u32; 8];
        Self::store(&mut buff, src);
        copy_prefix(dst, &buff, len);
    }

    fn set(value: Self) -> (v: Self::Vector) {
        [value; 8]
    }
}

impl SimdElement for i64 {
    type Vector = [i64; 4];

    const VECTOR_LEN: usize = 4;

    open spec fn width() -> usize {
        4
    }

    open spec fn lane(v: Self::Vector, i: usize) -> Self {
        v@[i as int]
    }

    open spec fn lanes(v: Self::Vector) -> Seq<Self> {
        v@
    }

    open spec fn zero() -> Self {
        0
    }

    open spec fn available() -> bool {
        true
    }

    proof fn lanes_shape(v: Self::Vector) {
    }

    proof fn register_budget() {
        broadcast use vstd::layout::layout_of_primitives;
    }

    fn is_available() -> (b: bool) {
        true
    }

    fn load(src: &[Self]) -> (v: Self::Vector) {
        let mut buff = [0i64; 4];
        copy_prefix(&mut buff, src, 4);
        buff
    }

    fn load_partial(src: &[Self], len: usize) -> (v: Self::Vector) {
        let mut buff = [0i64; 4];
        copy_prefix(&mut buff, src, len);
        Self::load(&buff)
    }

    fn store(dst: &mut [Self], src: Self::Vector) {
        copy_prefix(dst, &src, 4);
    }

    fn store_partial(dst: &mut [Self], src: Self::Vector, len: usize) {
        let mut buff = [0i64; 4];
        Self::store(&mut buff, src);
        copy_prefix(dst, &buff, len);
    }

    fn set(value: Self) -> (v: Self::Vector) {
        [value; 4]
    }
}

impl SimdElement for u64 {
    type Vector = [u64; 4];

    const VECTOR_LEN: usize = 4;

    open spec fn width() -> usize {
        4
    }

    open spec fn lane(v: Self::Vector, i: usize) -> Self {
        v@[i as int]
    }

    open spec fn lanes(v: Self::Vector) -> Seq<Self> {
        v@
    }

    open spec fn zero() -> Self {
        0
    }

    open spec fn available() -> bool {
        true
    }

    proof fn lanes_shape(v: Self::Vector) {
    }

    proof fn register_budget() {
        broadcast use vstd::layout::layout_of_primitives;
    }

    fn is_available() -> (b: bool) {
        true
    }

    fn load(src: &[Self]) -> (v: Self::Vector) {
        let mut buff = [0u64; 4];
        copy_prefix(&mut buff, src, 4);
        buff
    }

    fn load_partial(src: &[Self], len: usize) -> (v: Self::Vector) {
        let mut buff = [0u64; 4];
        copy_prefix(&mut buff, src, len);
        Self::load(&buff)
    }

    fn store(dst: &mut [Self], src: Self::Vector) {
        copy_prefix(dst, &src, 4);
    }

    fn store_partial(dst: &mut [Self], src: Self::Vector, len: usize) {
        let mut buff = [0u64; 4];
        Self::store(&mut buff, src);
        copy_prefix(dst, &buff, len);
    }

    fn set(value: Self) -> (v: Self::Vector) {
        [value; 4]
    }
}

} // verus!
