use crate::scalar::Float;
use crate::vector::{difference, divided, lemma_view_of_from_seq, product, quotient, scaled, sum, Vector};
use vstd::prelude::*;

verus! {

broadcast use lemma_view_of_from_seq;

// Each operation has one formula, in one of the functions below; every
// combination of values and references calls it, so all of them agree.

fn add_vectors<T: Float>(u: &Vector<T>, v: &Vector<T>) -> (r: Vector<T>)
    ensures
        r@ == sum(u@, v@),
        r == Vector::from_seq(sum(u@, v@)),
{
    let r = Vector::new(u.x().add(v.x()), u.y().add(v.y()), u.z().add(v.z()));
    proof {
        Vector::lemma_from_own_view(r);
    }
    r
}

fn sub_vectors<T: Float>(u: &Vector<T>, v: &Vector<T>) -> (r: Vector<T>)
    ensures
        r@ == difference(u@, v@),
        r == Vector::from_seq(difference(u@, v@)),
{
    let r = Vector::new(u.x().sub(v.x()), u.y().sub(v.y()), u.z().sub(v.z()));
    proof {
        Vector::lemma_from_own_view(r);
    }
    r
}

fn mul_vectors<T: Float>(u: &Vector<T>, v: &Vector<T>) -> (r: Vector<T>)
    ensures
        r@ == product(u@, v@),
        r == Vector::from_seq(product(u@, v@)),
{
    let r = Vector::new(u.x().mul(v.x()), u.y().mul(v.y()), u.z().mul(v.z()));
    proof {
        Vector::lemma_from_own_view(r);
    }
    r
}

fn div_vectors<T: Float>(u: &Vector<T>, v: &Vector<T>) -> (r: Vector<T>)
    ensures
        r@ == quotient(u@, v@),
        r == Vector::from_seq(quotient(u@, v@)),
{
    let r = Vector::new(u.x().div(v.x()), u.y().div(v.y()), u.z().div(v.z()));
    proof {
        Vector::lemma_from_own_view(r);
    }
    r
}

fn mul_scalar<T: Float>(u: &Vector<T>, s: T) -> (r: Vector<T>)
    ensures
        r@ == scaled(u@, s),
        r == Vector::from_seq(scaled(u@, s)),
{
    let r = Vector::new(u.x().mul(s), u.y().mul(s), u.z().mul(s));
    proof {
        Vector::lemma_from_own_view(r);
    }
    r
}

fn div_scalar<T: Float>(u: &Vector<T>, s: T) -> (r: Vector<T>)
    ensures
        r@ == divided(u@, s),
        r == Vector::from_seq(divided(u@, s)),
{
    let r = Vector::new(u.x().div(s), u.y().div(s), u.z().div(s));
    proof {
        Vector::lemma_from_own_view(r);
    }
    r
}

// component-wise sum
impl<'a, T: Float> core::ops::Add<&'a Vector<T>> for &'a Vector<T> {
    type Output = Vector<T>;

    fn add(self, rhs: &'a Vector<T>) -> (r: Vector<T>)
        ensures
            r@ == sum(self@, rhs@),
    {
        add_vectors(self, rhs)
    }
}

impl<'a, T: Float> vstd::std_specs::ops::AddSpecImpl<&'a Vector<T>> for &'a Vector<T> {
    open spec fn obeys_add_spec() -> bool {
        true
    }

    open spec fn add_req(self, rhs: &'a Vector<T>) -> bool {
        true
    }

    open spec fn add_spec(self, rhs: &'a Vector<T>) -> Vector<T> {
        Vector::from_seq(sum(self@, rhs@))
    }
}

impl<'a, T: Float> core::ops::Add<&'a Vector<T>> for Vector<T> {
    type Output = Vector<T>;

    fn add(self, rhs: &'a Vector<T>) -> (r: Vector<T>)
        ensures
            r@ == sum(self@, rhs@),
    {
        add_vectors(&self, rhs)
    }
}

impl<'a, T: Float> vstd::std_specs::ops::AddSpecImpl<&'a Vector<T>> for Vector<T> {
    open spec fn obeys_add_spec() -> bool {
        true
    }

    open spec fn add_req(self, rhs: &'a Vector<T>) -> bool {
        true
    }

    open spec fn add_spec(self, rhs: &'a Vector<T>) -> Vector<T> {
        Vector::from_seq(sum(self@, rhs@))
    }
}

impl<T: Float> core::ops::Add<Vector<T>> for Vector<T> {
    type Output = Vector<T>;

    fn add(self, rhs: Vector<T>) -> (r: Vector<T>)
        ensures
            r@ == sum(self@, rhs@),
    {
        add_vectors(&self, &rhs)
    }
}

impl<T: Float> vstd::std_specs::ops::AddSpecImpl<Vector<T>> for Vector<T> {
    open spec fn obeys_add_spec() -> bool {
        true
    }

    open spec fn add_req(self, rhs: Vector<T>) -> bool {
        true
    }

    open spec fn add_spec(self, rhs: Vector<T>) -> Vector<T> {
        Vector::from_seq(sum(self@, rhs@))
    }
}

// component-wise difference
impl<'a, T: Float> core::ops::Sub<&'a Vector<T>> for &'a Vector<T> {
    type Output = Vector<T>;

    fn sub(self, rhs: &'a Vector<T>) -> (r: Vector<T>)
        ensures
            r@ == difference(self@, rhs@),
    {
        sub_vectors(self, rhs)
    }
}

impl<'a, T: Float> vstd::std_specs::ops::SubSpecImpl<&'a Vector<T>> for &'a Vector<T> {
    open spec fn obeys_sub_spec() -> bool {
        true
    }

    open spec fn sub_req(self, rhs: &'a Vector<T>) -> bool {
        true
    }

    open spec fn sub_spec(self, rhs: &'a Vector<T>) -> Vector<T> {
        Vector::from_seq(difference(self@, rhs@))
    }
}

impl<'a, T: Float> core::ops::Sub<&'a Vector<T>> for Vector<T> {
    type Output = Vector<T>;

    fn sub(self, rhs: &'a Vector<T>) -> (r: Vector<T>)
        ensures
            r@ == difference(self@, rhs@),
    {
        sub_vectors(&self, rhs)
    }
}

impl<'a, T: Float> vstd::std_specs::ops::SubSpecImpl<&'a Vector<T>> for Vector<T> {
    open spec fn obeys_sub_spec() -> bool {
        true
    }

    open spec fn sub_req(self, rhs: &'a Vector<T>) -> bool {
        true
    }

    open spec fn sub_spec(self, rhs: &'a Vector<T>) -> Vector<T> {
        Vector::from_seq(difference(self@, rhs@))
    }
}

impl<T: Float> core::ops::Sub<Vector<T>> for Vector<T> {
    type Output = Vector<T>;

    fn sub(self, rhs: Vector<T>) -> (r: Vector<T>)
        ensures
            r@ == difference(self@, rhs@),
    {
        sub_vectors(&self, &rhs)
    }
}

impl<T: Float> vstd::std_specs::ops::SubSpecImpl<Vector<T>> for Vector<T> {
    open spec fn obeys_sub_spec() -> bool {
        true
    }

    open spec fn sub_req(self, rhs: Vector<T>) -> bool {
        true
    }

    open spec fn sub_spec(self, rhs: Vector<T>) -> Vector<T> {
        Vector::from_seq(difference(self@, rhs@))
    }
}

// component-wise (Hadamard) product
impl<'a, T: Float> core::ops::Mul<&'a Vector<T>> for &'a Vector<T> {
    type Output = Vector<T>;

    fn mul(self, rhs: &'a Vector<T>) -> (r: Vector<T>)
        ensures
            r@ == product(self@, rhs@),
    {
        mul_vectors(self, rhs)
    }
}

impl<'a, T: Float> vstd::std_specs::ops::MulSpecImpl<&'a Vector<T>> for &'a Vector<T> {
    open spec fn obeys_mul_spec() -> bool {
        true
    }

    open spec fn mul_req(self, rhs: &'a Vector<T>) -> bool {
        true
    }

    open spec fn mul_spec(self, rhs: &'a Vector<T>) -> Vector<T> {
        Vector::from_seq(product(self@, rhs@))
    }
}

impl<'a, T: Float> core::ops::Mul<&'a Vector<T>> for Vector<T> {
    type Output = Vector<T>;

    fn mul(self, rhs: &'a Vector<T>) -> (r: Vector<T>)
        ensures
            r@ == product(self@, rhs@),
    {
        mul_vectors(&self, rhs)
    }
}

impl<'a, T: Float> vstd::std_specs::ops::MulSpecImpl<&'a Vector<T>> for Vector<T> {
    open spec fn obeys_mul_spec() -> bool {
        true
    }

    open spec fn mul_req(self, rhs: &'a Vector<T>) -> bool {
        true
    }

    open spec fn mul_spec(self, rhs: &'a Vector<T>) -> Vector<T> {
        Vector::from_seq(product(self@, rhs@))
    }
}

impl<T: Float> core::ops::Mul<Vector<T>> for Vector<T> {
    type Output = Vector<T>;

    fn mul(self, rhs: Vector<T>) -> (r: Vector<T>)
        ensures
            r@ == product(self@, rhs@),
    {
        mul_vectors(&self, &rhs)
    }
}

impl<T: Float> vstd::std_specs::ops::MulSpecImpl<Vector<T>> for Vector<T> {
    open spec fn obeys_mul_spec() -> bool {
        true
    }

    open spec fn mul_req(self, rhs: Vector<T>) -> bool {
        true
    }

    open spec fn mul_spec(self, rhs: Vector<T>) -> Vector<T> {
        Vector::from_seq(product(self@, rhs@))
    }
}

// component-wise quotient
impl<'a, T: Float> core::ops::Div<&'a Vector<T>> for &'a Vector<T> {
    type Output = Vector<T>;

    fn div(self, rhs: &'a Vector<T>) -> (r: Vector<T>)
        ensures
            r@ == quotient(self@, rhs@),
    {
        div_vectors(self, rhs)
    }
}

impl<'a, T: Float> vstd::std_specs::ops::DivSpecImpl<&'a Vector<T>> for &'a Vector<T> {
    open spec fn obeys_div_spec() -> bool {
        true
    }

    open spec fn div_req(self, rhs: &'a Vector<T>) -> bool {
        true
    }

    open spec fn div_spec(self, rhs: &'a Vector<T>) -> Vector<T> {
        Vector::from_seq(quotient(self@, rhs@))
    }
}

impl<'a, T: Float> core::ops::Div<&'a Vector<T>> for Vector<T> {
    type Output = Vector<T>;

    fn div(self, rhs: &'a Vector<T>) -> (r: Vector<T>)
        ensures
            r@ == quotient(self@, rhs@),
    {
        div_vectors(&self, rhs)
    }
}

impl<'a, T: Float> vstd::std_specs::ops::DivSpecImpl<&'a Vector<T>> for Vector<T> {
    open spec fn obeys_div_spec() -> bool {
        true
    }

    open spec fn div_req(self, rhs: &'a Vector<T>) -> bool {
        true
    }

    open spec fn div_spec(self, rhs: &'a Vector<T>) -> Vector<T> {
        Vector::from_seq(quotient(self@, rhs@))
    }
}

impl<T: Float> core::ops::Div<Vector<T>> for Vector<T> {
    type Output = Vector<T>;

    fn div(self, rhs: Vector<T>) -> (r: Vector<T>)
        ensures
            r@ == quotient(self@, rhs@),
    {
        div_vectors(&self, &rhs)
    }
}

impl<T: Float> vstd::std_specs::ops::DivSpecImpl<Vector<T>> for Vector<T> {
    open spec fn obeys_div_spec() -> bool {
        true
    }

    open spec fn div_req(self, rhs: Vector<T>) -> bool {
        true
    }

    open spec fn div_spec(self, rhs: Vector<T>) -> Vector<T> {
        Vector::from_seq(quotient(self@, rhs@))
    }
}

// every component multiplied by a scalar
impl<'a, T: Float> core::ops::Mul<T> for &'a Vector<T> {
    type Output = Vector<T>;

    fn mul(self, rhs: T) -> (r: Vector<T>)
        ensures
            r@ == scaled(self@, rhs),
    {
        mul_scalar(self, rhs)
    }
}

impl<'a, T: Float> vstd::std_specs::ops::MulSpecImpl<T> for &'a Vector<T> {
    open spec fn obeys_mul_spec() -> bool {
        true
    }

    open spec fn mul_req(self, rhs: T) -> bool {
        true
    }

    open spec fn mul_spec(self, rhs: T) -> Vector<T> {
        Vector::from_seq(scaled(self@, rhs))
    }
}

impl<T: Float> core::ops::Mul<T> for Vector<T> {
    type Output = Vector<T>;

    fn mul(self, rhs: T) -> (r: Vector<T>)
        ensures
            r@ == scaled(self@, rhs),
    {
        mul_scalar(&self, rhs)
    }
}

impl<T: Float> vstd::std_specs::ops::MulSpecImpl<T> for Vector<T> {
    open spec fn obeys_mul_spec() -> bool {
        true
    }

    open spec fn mul_req(self, rhs: T) -> bool {
        true
    }

    open spec fn mul_spec(self, rhs: T) -> Vector<T> {
        Vector::from_seq(scaled(self@, rhs))
    }
}

// every component divided by a scalar
impl<'a, T: Float> core::ops::Div<T> for &'a Vector<T> {
    type Output = Vector<T>;

    fn div(self, rhs: T) -> (r: Vector<T>)
        ensures
            r@ == divided(self@, rhs),
    {
        div_scalar(self, rhs)
    }
}

impl<'a, T: Float> vstd::std_specs::ops::DivSpecImpl<T> for &'a Vector<T> {
    open spec fn obeys_div_spec() -> bool {
        true
    }

    open spec fn div_req(self, rhs: T) -> bool {
        true
    }

    open spec fn div_spec(self, rhs: T) -> Vector<T> {
        Vector::from_seq(divided(self@, rhs))
    }
}

impl<T: Float> core::ops::Div<T> for Vector<T> {
    type Output = Vector<T>;

    fn div(self, rhs: T) -> (r: Vector<T>)
        ensures
            r@ == divided(self@, rhs),
    {
        div_scalar(&self, rhs)
    }
}

impl<T: Float> vstd::std_specs::ops::DivSpecImpl<T> for Vector<T> {
    open spec fn obeys_div_spec() -> bool {
        true
    }

    open spec fn div_req(self, rhs: T) -> bool {
        true
    }

    open spec fn div_spec(self, rhs: T) -> Vector<T> {
        Vector::from_seq(divided(self@, rhs))
    }
}

// In-place forms: the receiver is replaced whole by the binary result.
impl<T: Float> core::ops::AddAssign<Vector<T>> for Vector<T> {
    fn add_assign(&mut self, rhs: Vector<T>)
        ensures
            final(self)@ == sum(old(self)@, rhs@),
    {
        *self = add_vectors(self, &rhs);
    }
}

impl<T: Float> core::ops::SubAssign<Vector<T>> for Vector<T> {
    fn sub_assign(&mut self, rhs: Vector<T>)
        ensures
            final(self)@ == difference(old(self)@, rhs@),
    {
        *self = sub_vectors(self, &rhs);
    }
}

impl<T: Float> core::ops::MulAssign<Vector<T>> for Vector<T> {
    fn mul_assign(&mut self, rhs: Vector<T>)
        ensures
            final(self)@ == product(old(self)@, rhs@),
    {
        *self = mul_vectors(self, &rhs);
    }
}

impl<T: Float> core::ops::MulAssign<T> for Vector<T> {
    fn mul_assign(&mut self, rhs: T)
        ensures
            final(self)@ == scaled(old(self)@, rhs),
    {
        *self = mul_scalar(self, rhs);
    }
}

impl<T: Float> core::ops::DivAssign<Vector<T>> for Vector<T> {
    fn div_assign(&mut self, rhs: Vector<T>)
        ensures
            final(self)@ == quotient(old(self)@, rhs@),
    {
        *self = div_vectors(self, &rhs);
    }
}

impl<T: Float> core::ops::DivAssign<T> for Vector<T> {
    fn div_assign(&mut self, rhs: T)
        ensures
            final(self)@ == divided(old(self)@, rhs),
    {
        *self = div_scalar(self, rhs);
    }
}

} // verus!
