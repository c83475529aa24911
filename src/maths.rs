use vstd::prelude::*;

verus! {

/// Resets a value to zero.
pub trait Clear {
    fn clear(&mut self);
}

/// Euclidean length.
pub trait Magnitude<R> {
    fn magnitude(&self) -> R;

    fn magnitude_sqr(&self) -> R;
}

/// Scalar product.
pub trait Dot<V, R> {
    fn dot(&self, other: V) -> R;
}

/// Vector product.
pub trait Cross<V, R> {
    fn cross(&self, other: V) -> R;
}

/// Scaling to unit length.
pub trait Normalize<R> {
    fn normalize(&mut self);

    fn normalized(&self) -> R;
}

/// Euclidean distance.
pub trait Distance<V, R> {
    fn distance(&self, b: V) -> R;
}

/// Linear interpolation.
pub trait Lerp<V, R, N> {
    fn lerp(&self, b: V, t: N) -> R;
}

/// Component-wise minimum.
pub trait Min<V, R> {
    fn min(&self, b: V) -> R;
}

/// Component-wise maximum.
pub trait Max<V, R> {
    fn max(&self, b: V) -> R;
}

#[derive(Debug, Clone, Copy, PartialEq, Eq, Hash)]
pub struct Vector2<T> {
    pub x: T,
    pub y: T,
}

#[derive(Debug, Clone, Copy, PartialEq, Eq, Hash)]
pub struct Vector3<T> {
    pub x: T,
    pub y: T,
    pub z: T,
}

#[derive(Debug, Clone, Copy, PartialEq, Eq, Hash)]
pub struct Vector4<T> {
    pub x: T,
    pub y: T,
    pub z: T,
    pub w: T,
}

pub type Int2 = Vector2<i32>;

pub type Int3 = Vector3<i32>;

pub type Int4 = Vector4<i32>;

pub type UInt2 = Vector2<u32>;

pub type UInt3 = Vector3<u32>;

pub type UInt4 = Vector4<u32>;

impl<T> Vector2<T> {
    pub fn new(x: T, y: T) -> (r: Self)
        ensures
            r.x == x,
            r.y == y,
    {
        Vector2 { x, y }
    }
}

impl<T> Vector3<T> {
    pub fn new(x: T, y: T, z: T) -> (r: Self)
        ensures
            r.x == x,
            r.y == y,
            r.z == z,
    {
        Vector3 { x, y, z }
    }
}

impl<T> Vector4<T> {
    pub fn new(x: T, y: T, z: T, w: T) -> (r: Self)
        ensures
            r.x == x,
            r.y == y,
            r.z == z,
            r.w == w,
    {
        Vector4 { x, y, z, w }
    }
}

pub fn dot<V: Dot<V, N>, N>(a: V, b: V) -> N {
    a.dot(b)
}

pub fn cross<V: Cross<V, N>, N>(a: V, b: V) -> N {
    a.cross(b)
}

pub fn normalize<V: Normalize<N>, N>(a: &mut V) {
    a.normalize();
}

pub fn normalized<V: Normalize<V>, N>(a: V) -> V {
    a.normalized()
}

pub fn distance<V: Distance<V, N>, N>(a: V, b: V) -> N {
    a.distance(b)
}

pub fn lerp<V: Lerp<V, V, N>, N>(a: V, b: V, t: N) -> V {
    a.lerp(b, t)
}

} // verus!
