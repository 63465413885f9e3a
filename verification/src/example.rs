//! Native functions of the kind that bindings are generated for.
use vstd::prelude::*;

verus! {

/// The sum of two numbers.
pub fn add(a: i32, b: i32) -> (sum: i32)
    requires
        i32::MIN <= a + b <= i32::MAX,
    ensures
        sum == a + b,
{
    a + b
}

/// Two numbers to add.
#[derive(Clone, Copy, Debug, PartialEq, Eq, Structural)]
pub struct Input {
    pub a: i32,
    pub b: i32,
}

impl Input {
    /// An input of the two numbers.
    pub fn new(a: i32, b: i32) -> (input: Input)
        ensures
            input.a == a,
            input.b == b,
    {
        Input { a, b }
    }
}

/// The sum of the two numbers of an input.
pub fn add2(input: &Input) -> (sum: i32)
    requires
        i32::MIN <= input.a + input.b <= i32::MAX,
    ensures
        sum == input.a + input.b,
{
    input.a + input.b
}

/// The number of bytes in a buffer.
pub fn bytelen(b: &[u8]) -> (n: u32)
    requires
        b@.len() <= u32::MAX,
    ensures
        n == b@.len(),
{
    b.len() as u32
}

/// Marks a buffer by setting its first byte to 99.
pub fn buf_mut(b: &mut Vec<u8>)
    requires
        old(b)@.len() > 0,
    ensures
        final(b)@ == old(b)@.update(0, 99u8),
{
    b.set(0, 99);
}

/// The answer of a function that does not block.
pub fn non_blocking() -> (answer: i32)
    ensures
        answer == 42,
{
    42
}

/// A counter behind an opaque handle.
#[derive(Clone, Copy, Debug, PartialEq, Eq, Structural)]
pub struct Foo {
    pub internal: u32,
}

impl Foo {
    /// A counter that starts at `internal`.
    pub fn new(internal: u32) -> (foo: Foo)
        ensures
            foo.internal == internal,
    {
        Foo { internal }
    }

    /// Counts one up.
    pub fn inc(&mut self)
        requires
            old(self).internal < u32::MAX,
        ensures
            final(self).internal == old(self).internal + 1,
    {
        self.internal += 1;
    }

    /// The count plus `a`.
    pub fn bar(&self, a: u32) -> (sum: u32)
        requires
            self.internal + a <= u32::MAX,
        ensures
            sum == self.internal + a,
    {
        self.internal + a
    }
}

/// A counter that starts at 42.
pub fn make_foo() -> (foo: Foo)
    ensures
        foo.internal == 42,
{
    Foo { internal: 42 }
}

/// Counts `foo` one up.
pub fn inc_foo(foo: &mut Foo)
    requires
        old(foo).internal < u32::MAX,
    ensures
        final(foo).internal == old(foo).internal + 1,
{
    foo.internal += 1;
}

} // verus!
