//! The capability traits: how each kind converts to an integer, a float, a
//! boolean, an array, a map, a pair and a function.
use vstd::prelude::*;

use crate::float::{trunc32, trunc64, zero32, zero64};
use crate::function::Function;
use crate::render::{chunks, render, Piece};
use crate::text::{parse_int, parse_integer};
use crate::value::{lemma_views, Any, Array, Dict, Null, Pair, Val};

verus! {

/// The value a kind stands for.
pub trait Model {
    spec fn model(&self) -> Val;
}

/// What `to_integer` gives: integers by value as `i64` (unsigned 64-bit
/// values wrap), floats truncated toward zero with saturation, strings
/// parsed, `true` as 1, and 0 for every other kind.
pub open spec fn integer_of(v: Val) -> int {
    match v {
        Val::I8(x) => x as int,
        Val::I16(x) => x as int,
        Val::I32(x) => x as int,
        Val::I64(x) => x as int,
        Val::Isize(x) => x as int,
        Val::U8(x) => x as int,
        Val::U16(x) => x as int,
        Val::U32(x) => x as int,
        Val::U64(x) => (x as i64) as int,
        Val::Usize(x) => (x as i64) as int,
        Val::F32(b) => trunc32(b),
        Val::F64(b) => trunc64(b),
        Val::String(s) => parse_int(s).unwrap(),
        Val::Str(s) => parse_int(s).unwrap(),
        Val::Bool(b) => if b { 1 } else { 0 },
        _ => 0,
    }
}

/// A string converts to an integer only when it parses as one.
pub open spec fn integer_defined(v: Val) -> bool {
    match v {
        Val::String(s) => parse_int(s) is Some,
        Val::Str(s) => parse_int(s) is Some,
        _ => true,
    }
}

/// What `to_boolean` gives: numbers are true when non-zero (NaN is true),
/// a string only when it reads `true`, containers are always true, null
/// and functions are false.
pub open spec fn boolean_of(v: Val) -> bool {
    match v {
        Val::I8(x) => x != 0,
        Val::I16(x) => x != 0,
        Val::I32(x) => x != 0,
        Val::I64(x) => x != 0,
        Val::Isize(x) => x != 0,
        Val::U8(x) => x != 0,
        Val::U16(x) => x != 0,
        Val::U32(x) => x != 0,
        Val::U64(x) => x != 0,
        Val::Usize(x) => x != 0,
        Val::F32(b) => !zero32(b),
        Val::F64(b) => !zero64(b),
        Val::String(s) => s == seq!['t', 'r', 'u', 'e'],
        Val::Str(s) => s == seq!['t', 'r', 'u', 'e'],
        Val::Bool(b) => b,
        Val::Array(_) => true,
        Val::Dict(_) => true,
        Val::Pair(_, _) => true,
        Val::Null => false,
        Val::Function(_) => false,
    }
}

/// What `to_array` gives: an array is itself, a map gives the empty array,
/// and any other value is wrapped alone in an array.
pub open spec fn array_of(v: Val) -> Seq<Val> {
    match v {
        Val::Array(s) => s,
        Val::Dict(_) => Seq::empty(),
        _ => seq![v],
    }
}

/// What `to_map` gives: a map is itself, any other value the empty map.
pub open spec fn dict_of(v: Val) -> Seq<(Val, Val)> {
    match v {
        Val::Dict(m) => m,
        _ => Seq::empty(),
    }
}

/// What `to_pair` gives: a pair is itself, an array of two or more gives
/// its first two elements, anything else two nulls.
pub open spec fn pair_of(v: Val) -> (Val, Val) {
    match v {
        Val::Pair(a, b) => (*a, *b),
        Val::Array(s) => if s.len() >= 2 { (s[0], s[1]) } else { (Val::Null, Val::Null) },
        _ => (Val::Null, Val::Null),
    }
}

/// A number handed to the host to be read as an `f64`.
pub enum Real {
    /// An integer, converted with `as f64`.
    Int(i128),
    /// The bits of an `f32`, widened.
    Single(u32),
    /// The bits of an `f64`.
    Double(u64),
    /// A string, parsed as an `f64`.
    Text(String),
}

pub enum RealVal {
    Int(int),
    Single(u32),
    Double(u64),
    Text(Seq<char>),
}

impl View for Real {
    type V = RealVal;

    open spec fn view(&self) -> RealVal {
        match self {
            Real::Int(i) => RealVal::Int(*i as int),
            Real::Single(b) => RealVal::Single(*b),
            Real::Double(b) => RealVal::Double(*b),
            Real::Text(s) => RealVal::Text(s@),
        }
    }
}

/// What `to_float` gives before the host reads it: integers by value,
/// floats by bits, strings as text, `true` as 1, and 0 for every other kind.
pub open spec fn real_of(v: Val) -> RealVal {
    match v {
        Val::I8(x) => RealVal::Int(x as int),
        Val::I16(x) => RealVal::Int(x as int),
        Val::I32(x) => RealVal::Int(x as int),
        Val::I64(x) => RealVal::Int(x as int),
        Val::Isize(x) => RealVal::Int(x as int),
        Val::U8(x) => RealVal::Int(x as int),
        Val::U16(x) => RealVal::Int(x as int),
        Val::U32(x) => RealVal::Int(x as int),
        Val::U64(x) => RealVal::Int(x as int),
        Val::Usize(x) => RealVal::Int(x as int),
        Val::F32(b) => RealVal::Single(b),
        Val::F64(b) => RealVal::Double(b),
        Val::String(s) => RealVal::Text(s),
        Val::Str(s) => RealVal::Text(s),
        Val::Bool(b) => RealVal::Int(if b { 1 } else { 0 }),
        _ => RealVal::Int(0),
    }
}

/// Trait for casting: how a kind converts to an integer.
pub trait ToInteger: Model {
    fn to_integer(&self) -> (r: i64)
        requires
            integer_defined(self.model()),
        ensures
            r as int == integer_of(self.model()),
    ;
}

/// Trait for casting: how a kind converts to a float, as a `Real` that the
/// host reads.
pub trait ToFloat: Model {
    fn to_float(&self) -> (r: Real)
        ensures
            r@ == real_of(self.model()),
    ;
}

/// Trait for casting: how a kind converts to an array.
pub trait ToArray: Model {
    fn to_array(&self) -> (r: Array)
        ensures
            r@ == array_of(self.model()),
    ;
}

/// Trait for casting: how a kind converts to a map.
pub trait ToMap: Model {
    fn to_map(&self) -> (r: Dict)
        ensures
            r@ == dict_of(self.model()),
    ;
}

/// Trait for casting: how a kind converts to a pair.
pub trait ToPair: Model {
    fn to_pair(&self) -> (r: Pair)
        ensures
            (r.0@, r.1@) == pair_of(self.model()),
    ;
}

/// Trait for casting: how a kind converts to a boolean.
pub trait ToBoolean: Model {
    fn to_boolean(&self) -> (r: bool)
        ensures
            r == boolean_of(self.model()),
    ;
}

/// Trait for casting: how a kind converts to a function. Only a function
/// is one; every other kind gives a function that returns null.
pub trait ToFunction: Model {
    fn to_function(&self) -> (r: Function)
        ensures
            self.model() matches Val::Function(n) ==> r.arity() == n,
            !(self.model() is Function) ==> r.arity() == 0,
    ;
}

/// Trait for casting: how a kind renders as text, in pieces; a float is
/// left as its bits for the host to format.
pub trait ToStr: Model {
    fn to_str(&self) -> (r: Vec<Piece>)
        ensures
            chunks(r@) == render(self.model()),
    ;
}

/// Every capability at once.
pub trait AutoCast: ToInteger + ToFloat + ToArray + ToMap + ToPair + ToBoolean + ToFunction + ToStr {

}

/// A kind that can be stored in an `Any`.
pub trait Anyable: Model + Sized {
    fn into_any(self) -> (r: Any)
        ensures
            r@ == self.model(),
    ;
}

fn empty_dict() -> (r: Dict)
    ensures
        r@ == Seq::<(Val, Val)>::empty(),
{
    Dict::new()
}

fn single(v: Any) -> (r: Array)
    ensures
        r@ == seq![v@],
{
    let mut a = Array::new();
    a.push(v);
    proof {
        assert(a@ =~= seq![v@]);
    }
    a
}

fn null_pair() -> (r: Pair)
    ensures
        r.0@ == Val::Null,
        r.1@ == Val::Null,
{
    Pair(Any::Null(Null), Any::Null(Null))
}

fn returns_null(_args: Any) -> Any {
    Any::Null(Null)
}

fn null_function() -> (r: Function)
    ensures
        r.arity() == 0,
{
    Function::new(returns_null, 0)
}

} // verus!

verus! {
impl Model for i8 {
    open spec fn model(&self) -> Val {
        Val::I8(*self)
    }
}

impl Anyable for i8 {
    fn into_any(self) -> (r: Any) {
        Any::I8(self)
    }
}

impl ToInteger for i8 {
    fn to_integer(&self) -> (r: i64) {
        
        (*self as i64)
    }
}

impl ToFloat for i8 {
    fn to_float(&self) -> (r: Real) {
        Real::Int(*self as i128)
    }
}

impl ToArray for i8 {
    fn to_array(&self) -> (r: Array) {
        single(Any::I8(*self))
    }
}

impl ToMap for i8 {
    fn to_map(&self) -> (r: Dict) {
        empty_dict()
    }
}

impl ToPair for i8 {
    fn to_pair(&self) -> (r: Pair) {
        null_pair()
    }
}

impl ToBoolean for i8 {
    fn to_boolean(&self) -> (r: bool) {
        *self != 0
    }
}

impl ToFunction for i8 {
    fn to_function(&self) -> (r: Function) {
        null_function()
    }
}

impl AutoCast for i8 {

}

impl Model for i16 {
    open spec fn model(&self) -> Val {
        Val::I16(*self)
    }
}

impl Anyable for i16 {
    fn into_any(self) -> (r: Any) {
        Any::I16(self)
    }
}

impl ToInteger for i16 {
    fn to_integer(&self) -> (r: i64) {
        
        (*self as i64)
    }
}

impl ToFloat for i16 {
    fn to_float(&self) -> (r: Real) {
        Real::Int(*self as i128)
    }
}

impl ToArray for i16 {
    fn to_array(&self) -> (r: Array) {
        single(Any::I16(*self))
    }
}

impl ToMap for i16 {
    fn to_map(&self) -> (r: Dict) {
        empty_dict()
    }
}

impl ToPair for i16 {
    fn to_pair(&self) -> (r: Pair) {
        null_pair()
    }
}

impl ToBoolean for i16 {
    fn to_boolean(&self) -> (r: bool) {
        *self != 0
    }
}

impl ToFunction for i16 {
    fn to_function(&self) -> (r: Function) {
        null_function()
    }
}

impl AutoCast for i16 {

}

impl Model for i32 {
    open spec fn model(&self) -> Val {
        Val::I32(*self)
    }
}

impl Anyable for i32 {
    fn into_any(self) -> (r: Any) {
        Any::I32(self)
    }
}

impl ToInteger for i32 {
    fn to_integer(&self) -> (r: i64) {
        
        (*self as i64)
    }
}

impl ToFloat for i32 {
    fn to_float(&self) -> (r: Real) {
        Real::Int(*self as i128)
    }
}

impl ToArray for i32 {
    fn to_array(&self) -> (r: Array) {
        single(Any::I32(*self))
    }
}

impl ToMap for i32 {
    fn to_map(&self) -> (r: Dict) {
        empty_dict()
    }
}

impl ToPair for i32 {
    fn to_pair(&self) -> (r: Pair) {
        null_pair()
    }
}

impl ToBoolean for i32 {
    fn to_boolean(&self) -> (r: bool) {
        *self != 0
    }
}

impl ToFunction for i32 {
    fn to_function(&self) -> (r: Function) {
        null_function()
    }
}

impl AutoCast for i32 {

}

impl Model for i64 {
    open spec fn model(&self) -> Val {
        Val::I64(*self)
    }
}

impl Anyable for i64 {
    fn into_any(self) -> (r: Any) {
        Any::I64(self)
    }
}

impl ToInteger for i64 {
    fn to_integer(&self) -> (r: i64) {
        
        (*self as i64)
    }
}

impl ToFloat for i64 {
    fn to_float(&self) -> (r: Real) {
        Real::Int(*self as i128)
    }
}

impl ToArray for i64 {
    fn to_array(&self) -> (r: Array) {
        single(Any::I64(*self))
    }
}

impl ToMap for i64 {
    fn to_map(&self) -> (r: Dict) {
        empty_dict()
    }
}

impl ToPair for i64 {
    fn to_pair(&self) -> (r: Pair) {
        null_pair()
    }
}

impl ToBoolean for i64 {
    fn to_boolean(&self) -> (r: bool) {
        *self != 0
    }
}

impl ToFunction for i64 {
    fn to_function(&self) -> (r: Function) {
        null_function()
    }
}

impl AutoCast for i64 {

}

impl Model for isize {
    open spec fn model(&self) -> Val {
        Val::Isize(*self)
    }
}

impl Anyable for isize {
    fn into_any(self) -> (r: Any) {
        Any::Isize(self)
    }
}

impl ToInteger for isize {
    fn to_integer(&self) -> (r: i64) {
        
        (*self as i64)
    }
}

impl ToFloat for isize {
    fn to_float(&self) -> (r: Real) {
        Real::Int(*self as i128)
    }
}

impl ToArray for isize {
    fn to_array(&self) -> (r: Array) {
        single(Any::Isize(*self))
    }
}

impl ToMap for isize {
    fn to_map(&self) -> (r: Dict) {
        empty_dict()
    }
}

impl ToPair for isize {
    fn to_pair(&self) -> (r: Pair) {
        null_pair()
    }
}

impl ToBoolean for isize {
    fn to_boolean(&self) -> (r: bool) {
        *self != 0
    }
}

impl ToFunction for isize {
    fn to_function(&self) -> (r: Function) {
        null_function()
    }
}

impl AutoCast for isize {

}

impl Model for u8 {
    open spec fn model(&self) -> Val {
        Val::U8(*self)
    }
}

impl Anyable for u8 {
    fn into_any(self) -> (r: Any) {
        Any::U8(self)
    }
}

impl ToInteger for u8 {
    fn to_integer(&self) -> (r: i64) {
        
        (*self as i64)
    }
}

impl ToFloat for u8 {
    fn to_float(&self) -> (r: Real) {
        Real::Int(*self as i128)
    }
}

impl ToArray for u8 {
    fn to_array(&self) -> (r: Array) {
        single(Any::U8(*self))
    }
}

impl ToMap for u8 {
    fn to_map(&self) -> (r: Dict) {
        empty_dict()
    }
}

impl ToPair for u8 {
    fn to_pair(&self) -> (r: Pair) {
        null_pair()
    }
}

impl ToBoolean for u8 {
    fn to_boolean(&self) -> (r: bool) {
        *self != 0
    }
}

impl ToFunction for u8 {
    fn to_function(&self) -> (r: Function) {
        null_function()
    }
}

impl AutoCast for u8 {

}

impl Model for u16 {
    open spec fn model(&self) -> Val {
        Val::U16(*self)
    }
}

impl Anyable for u16 {
    fn into_any(self) -> (r: Any) {
        Any::U16(self)
    }
}

impl ToInteger for u16 {
    fn to_integer(&self) -> (r: i64) {
        
        (*self as i64)
    }
}

impl ToFloat for u16 {
    fn to_float(&self) -> (r: Real) {
        Real::Int(*self as i128)
    }
}

impl ToArray for u16 {
    fn to_array(&self) -> (r: Array) {
        single(Any::U16(*self))
    }
}

impl ToMap for u16 {
    fn to_map(&self) -> (r: Dict) {
        empty_dict()
    }
}

impl ToPair for u16 {
    fn to_pair(&self) -> (r: Pair) {
        null_pair()
    }
}

impl ToBoolean for u16 {
    fn to_boolean(&self) -> (r: bool) {
        *self != 0
    }
}

impl ToFunction for u16 {
    fn to_function(&self) -> (r: Function) {
        null_function()
    }
}

impl AutoCast for u16 {

}

impl Model for u32 {
    open spec fn model(&self) -> Val {
        Val::U32(*self)
    }
}

impl Anyable for u32 {
    fn into_any(self) -> (r: Any) {
        Any::U32(self)
    }
}

impl ToInteger for u32 {
    fn to_integer(&self) -> (r: i64) {
        
        (*self as i64)
    }
}

impl ToFloat for u32 {
    fn to_float(&self) -> (r: Real) {
        Real::Int(*self as i128)
    }
}

impl ToArray for u32 {
    fn to_array(&self) -> (r: Array) {
        single(Any::U32(*self))
    }
}

impl ToMap for u32 {
    fn to_map(&self) -> (r: Dict) {
        empty_dict()
    }
}

impl ToPair for u32 {
    fn to_pair(&self) -> (r: Pair) {
        null_pair()
    }
}

impl ToBoolean for u32 {
    fn to_boolean(&self) -> (r: bool) {
        *self != 0
    }
}

impl ToFunction for u32 {
    fn to_function(&self) -> (r: Function) {
        null_function()
    }
}

impl AutoCast for u32 {

}

impl Model for u64 {
    open spec fn model(&self) -> Val {
        Val::U64(*self)
    }
}

impl Anyable for u64 {
    fn into_any(self) -> (r: Any) {
        Any::U64(self)
    }
}

impl ToInteger for u64 {
    fn to_integer(&self) -> (r: i64) {
        #[verifier::truncate]
        (*self as i64)
    }
}

impl ToFloat for u64 {
    fn to_float(&self) -> (r: Real) {
        Real::Int(*self as i128)
    }
}

impl ToArray for u64 {
    fn to_array(&self) -> (r: Array) {
        single(Any::U64(*self))
    }
}

impl ToMap for u64 {
    fn to_map(&self) -> (r: Dict) {
        empty_dict()
    }
}

impl ToPair for u64 {
    fn to_pair(&self) -> (r: Pair) {
        null_pair()
    }
}

impl ToBoolean for u64 {
    fn to_boolean(&self) -> (r: bool) {
        *self != 0
    }
}

impl ToFunction for u64 {
    fn to_function(&self) -> (r: Function) {
        null_function()
    }
}

impl AutoCast for u64 {

}

impl Model for usize {
    open spec fn model(&self) -> Val {
        Val::Usize(*self)
    }
}

impl Anyable for usize {
    fn into_any(self) -> (r: Any) {
        Any::Usize(self)
    }
}

impl ToInteger for usize {
    fn to_integer(&self) -> (r: i64) {
        #[verifier::truncate]
        (*self as i64)
    }
}

impl ToFloat for usize {
    fn to_float(&self) -> (r: Real) {
        Real::Int(*self as i128)
    }
}

impl ToArray for usize {
    fn to_array(&self) -> (r: Array) {
        single(Any::Usize(*self))
    }
}

impl ToMap for usize {
    fn to_map(&self) -> (r: Dict) {
        empty_dict()
    }
}

impl ToPair for usize {
    fn to_pair(&self) -> (r: Pair) {
        null_pair()
    }
}

impl ToBoolean for usize {
    fn to_boolean(&self) -> (r: bool) {
        *self != 0
    }
}

impl ToFunction for usize {
    fn to_function(&self) -> (r: Function) {
        null_function()
    }
}

impl AutoCast for usize {

}

} // verus!

verus! {
fn is_true_text(s: &String) -> (r: bool)
    ensures
        r == (s@ == seq!['t', 'r', 'u', 'e']),
{
    let t = String::from_str("true");
    proof {
        reveal_strlit("true");
        assert(t@ =~= seq!['t', 'r', 'u', 'e']);
    }
    *s == t
}

fn array_pair(a: &Array) -> (r: Pair)
    ensures
        (r.0@, r.1@) == pair_of(Val::Array(a@)),
{
    proof {
        lemma_views(a.0@);
    }
    if a.0.len() >= 2 {
        Pair(a.0[0].duplicate(), a.0[1].duplicate())
    } else {
        null_pair()
    }
}

impl Model for bool {
    open spec fn model(&self) -> Val {
        Val::Bool(*self)
    }
}

impl Anyable for bool {
    fn into_any(self) -> (r: Any) {
        Any::Bool(self)
    }
}

impl ToInteger for bool {
    fn to_integer(&self) -> (r: i64) {
        if *self { 1 } else { 0 }
    }
}

impl ToFloat for bool {
    fn to_float(&self) -> (r: Real) {
        Real::Int(if *self { 1 } else { 0 })
    }
}

impl ToArray for bool {
    fn to_array(&self) -> (r: Array) {
        single(Any::Bool(*self))
    }
}

impl ToMap for bool {
    fn to_map(&self) -> (r: Dict) {
        empty_dict()
    }
}

impl ToPair for bool {
    fn to_pair(&self) -> (r: Pair) {
        null_pair()
    }
}

impl ToBoolean for bool {
    fn to_boolean(&self) -> (r: bool) {
        *self
    }
}

impl ToFunction for bool {
    fn to_function(&self) -> (r: Function) {
        null_function()
    }
}

impl AutoCast for bool {

}

impl Model for String {
    open spec fn model(&self) -> Val {
        Val::String(self@)
    }
}

impl Anyable for String {
    fn into_any(self) -> (r: Any) {
        Any::String(self)
    }
}

impl ToInteger for String {
    fn to_integer(&self) -> (r: i64) {
        parse_integer(self).unwrap()
    }
}

impl ToFloat for String {
    fn to_float(&self) -> (r: Real) {
        Real::Text(self.clone())
    }
}

impl ToArray for String {
    fn to_array(&self) -> (r: Array) {
        single(Any::String(self.clone()))
    }
}

impl ToMap for String {
    fn to_map(&self) -> (r: Dict) {
        empty_dict()
    }
}

impl ToPair for String {
    fn to_pair(&self) -> (r: Pair) {
        null_pair()
    }
}

impl ToBoolean for String {
    fn to_boolean(&self) -> (r: bool) {
        is_true_text(self)
    }
}

impl ToFunction for String {
    fn to_function(&self) -> (r: Function) {
        null_function()
    }
}

impl AutoCast for String {

}

impl Model for Null {
    open spec fn model(&self) -> Val {
        Val::Null
    }
}

impl Anyable for Null {
    fn into_any(self) -> (r: Any) {
        Any::Null(self)
    }
}

impl ToInteger for Null {
    fn to_integer(&self) -> (r: i64) {
        0
    }
}

impl ToFloat for Null {
    fn to_float(&self) -> (r: Real) {
        Real::Int(0)
    }
}

impl ToArray for Null {
    fn to_array(&self) -> (r: Array) {
        single(Any::Null(Null))
    }
}

impl ToMap for Null {
    fn to_map(&self) -> (r: Dict) {
        empty_dict()
    }
}

impl ToPair for Null {
    fn to_pair(&self) -> (r: Pair) {
        null_pair()
    }
}

impl ToBoolean for Null {
    fn to_boolean(&self) -> (r: bool) {
        false
    }
}

impl ToFunction for Null {
    fn to_function(&self) -> (r: Function) {
        null_function()
    }
}

impl AutoCast for Null {

}

impl Model for Array {
    open spec fn model(&self) -> Val {
        Val::Array(self@)
    }
}

impl Anyable for Array {
    fn into_any(self) -> (r: Any) {
        Any::Array(self)
    }
}

impl ToInteger for Array {
    fn to_integer(&self) -> (r: i64) {
        0
    }
}

impl ToFloat for Array {
    fn to_float(&self) -> (r: Real) {
        Real::Int(0)
    }
}

impl ToArray for Array {
    fn to_array(&self) -> (r: Array) {
        self.copy()
    }
}

impl ToMap for Array {
    fn to_map(&self) -> (r: Dict) {
        empty_dict()
    }
}

impl ToPair for Array {
    fn to_pair(&self) -> (r: Pair) {
        array_pair(self)
    }
}

impl ToBoolean for Array {
    fn to_boolean(&self) -> (r: bool) {
        true
    }
}

impl ToFunction for Array {
    fn to_function(&self) -> (r: Function) {
        null_function()
    }
}

impl AutoCast for Array {

}

impl Model for Dict {
    open spec fn model(&self) -> Val {
        Val::Dict(self@)
    }
}

impl Anyable for Dict {
    fn into_any(self) -> (r: Any) {
        Any::Dict(self)
    }
}

impl ToInteger for Dict {
    fn to_integer(&self) -> (r: i64) {
        0
    }
}

impl ToFloat for Dict {
    fn to_float(&self) -> (r: Real) {
        Real::Int(0)
    }
}

impl ToArray for Dict {
    fn to_array(&self) -> (r: Array) {
        Array::new()
    }
}

impl ToMap for Dict {
    fn to_map(&self) -> (r: Dict) {
        self.copy()
    }
}

impl ToPair for Dict {
    fn to_pair(&self) -> (r: Pair) {
        null_pair()
    }
}

impl ToBoolean for Dict {
    fn to_boolean(&self) -> (r: bool) {
        true
    }
}

impl ToFunction for Dict {
    fn to_function(&self) -> (r: Function) {
        null_function()
    }
}

impl AutoCast for Dict {

}

impl Model for Pair {
    open spec fn model(&self) -> Val {
        Val::Pair(Box::new(self.0@), Box::new(self.1@))
    }
}

impl Anyable for Pair {
    fn into_any(self) -> (r: Any) {
        Any::Pair(Box::new(self))
    }
}

impl ToInteger for Pair {
    fn to_integer(&self) -> (r: i64) {
        0
    }
}

impl ToFloat for Pair {
    fn to_float(&self) -> (r: Real) {
        Real::Int(0)
    }
}

impl ToArray for Pair {
    fn to_array(&self) -> (r: Array) {
        single(Any::Pair(Box::new(self.copy())))
    }
}

impl ToMap for Pair {
    fn to_map(&self) -> (r: Dict) {
        empty_dict()
    }
}

impl ToPair for Pair {
    fn to_pair(&self) -> (r: Pair) {
        self.copy()
    }
}

impl ToBoolean for Pair {
    fn to_boolean(&self) -> (r: bool) {
        true
    }
}

impl ToFunction for Pair {
    fn to_function(&self) -> (r: Function) {
        null_function()
    }
}

impl AutoCast for Pair {

}

impl Model for Function {
    open spec fn model(&self) -> Val {
        Val::Function(self.arity())
    }
}

impl Anyable for Function {
    fn into_any(self) -> (r: Any) {
        Any::Function(self)
    }
}

impl ToInteger for Function {
    fn to_integer(&self) -> (r: i64) {
        0
    }
}

impl ToFloat for Function {
    fn to_float(&self) -> (r: Real) {
        Real::Int(0)
    }
}

impl ToArray for Function {
    fn to_array(&self) -> (r: Array) {
        single(Any::Function(self.share()))
    }
}

impl ToMap for Function {
    fn to_map(&self) -> (r: Dict) {
        empty_dict()
    }
}

impl ToPair for Function {
    fn to_pair(&self) -> (r: Pair) {
        null_pair()
    }
}

impl ToBoolean for Function {
    fn to_boolean(&self) -> (r: bool) {
        false
    }
}

impl ToFunction for Function {
    fn to_function(&self) -> (r: Function) {
        self.share()
    }
}

impl AutoCast for Function {

}

} // verus!

verus! {

impl<'a> Model for &'a str {
    open spec fn model(&self) -> Val {
        Val::Str((*self)@)
    }
}

/// A string slice is stored as an owned string under its own tag.
impl<'a> Anyable for &'a str {
    fn into_any(self) -> (r: Any) {
        Any::Str(String::from_str(self))
    }
}

} // verus!

verus! {
impl ToStr for i8 {
    fn to_str(&self) -> (r: Vec<Piece>) {
        Any::I8(*self).render()
    }
}

impl ToStr for i16 {
    fn to_str(&self) -> (r: Vec<Piece>) {
        Any::I16(*self).render()
    }
}

impl ToStr for i32 {
    fn to_str(&self) -> (r: Vec<Piece>) {
        Any::I32(*self).render()
    }
}

impl ToStr for i64 {
    fn to_str(&self) -> (r: Vec<Piece>) {
        Any::I64(*self).render()
    }
}

impl ToStr for isize {
    fn to_str(&self) -> (r: Vec<Piece>) {
        Any::Isize(*self).render()
    }
}

impl ToStr for u8 {
    fn to_str(&self) -> (r: Vec<Piece>) {
        Any::U8(*self).render()
    }
}

impl ToStr for u16 {
    fn to_str(&self) -> (r: Vec<Piece>) {
        Any::U16(*self).render()
    }
}

impl ToStr for u32 {
    fn to_str(&self) -> (r: Vec<Piece>) {
        Any::U32(*self).render()
    }
}

impl ToStr for u64 {
    fn to_str(&self) -> (r: Vec<Piece>) {
        Any::U64(*self).render()
    }
}

impl ToStr for usize {
    fn to_str(&self) -> (r: Vec<Piece>) {
        Any::Usize(*self).render()
    }
}

impl ToStr for bool {
    fn to_str(&self) -> (r: Vec<Piece>) {
        Any::Bool(*self).render()
    }
}

impl ToStr for String {
    fn to_str(&self) -> (r: Vec<Piece>) {
        Any::String(self.clone()).render()
    }
}

impl ToStr for Null {
    fn to_str(&self) -> (r: Vec<Piece>) {
        Any::Null(Null).render()
    }
}

impl ToStr for Array {
    fn to_str(&self) -> (r: Vec<Piece>) {
        Any::Array(self.copy()).render()
    }
}

impl ToStr for Dict {
    fn to_str(&self) -> (r: Vec<Piece>) {
        Any::Dict(self.copy()).render()
    }
}

impl ToStr for Pair {
    fn to_str(&self) -> (r: Vec<Piece>) {
        Any::Pair(Box::new(self.copy())).render()
    }
}

impl ToStr for Function {
    fn to_str(&self) -> (r: Vec<Piece>) {
        Any::Function(self.share()).render()
    }
}

} // verus!
