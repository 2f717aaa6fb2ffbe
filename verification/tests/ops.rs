// Scalar-plus-unit arithmetic, as the unit newtypes define it: a bare
// number on the left of `+` lifts into the unit.  The three newtypes
// here mirror one float-, one signed- and one unsigned-backed unit.

use std::ops::Add;

#[derive(Debug, Clone, Copy, PartialEq)]
struct Degree(f64);

#[derive(Debug, Clone, Copy, PartialEq)]
struct Millisecond(i64);

#[derive(Debug, Clone, Copy, PartialEq)]
struct Microsecond(u64);

impl Add<Degree> for f64 {
    type Output = Degree;
    fn add(self, rhs: Degree) -> Degree {
        Degree(self + rhs.0)
    }
}

impl Add<Millisecond> for i64 {
    type Output = Millisecond;
    fn add(self, rhs: Millisecond) -> Millisecond {
        Millisecond(self + rhs.0)
    }
}

impl Add<Microsecond> for u64 {
    type Output = Microsecond;
    fn add(self, rhs: Microsecond) -> Microsecond {
        Microsecond(self + rhs.0)
    }
}

#[test]
fn ops() {
    let deg = Degree(1.0);
    let new_deg = 1.0f64 + deg;
    assert_eq!(new_deg, Degree(2.0));

    let milli = Millisecond(-1);
    let new_milli = 1i64 + milli;
    assert_eq!(new_milli, Millisecond(0));

    let micro = Microsecond(1);
    let new_micro = 1u64 + micro;
    assert_eq!(new_micro, Microsecond(2));
}
