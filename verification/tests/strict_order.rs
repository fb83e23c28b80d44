use rboy::plugins::perms::{Permission, ReadWritePermissions};
use rboy::strict::strict_partial_ord;
use std::cmp::Ordering;
use std::cmp::Ordering::{Equal, Greater, Less};
use std::f32::NAN;

#[derive(Debug, PartialEq)]
struct Point3 {
    x: f32,
    y: f32,
    z: f32,
}

impl PartialOrd for Point3 {
    fn partial_cmp(&self, other: &Self) -> Option<Ordering> {
        strict_partial_ord(&[
            self.x.partial_cmp(&other.x),
            self.y.partial_cmp(&other.y),
            self.z.partial_cmp(&other.z),
        ])
    }
}

impl From<(f32, f32, f32)> for Point3 {
    fn from((x, y, z): (f32, f32, f32)) -> Self {
        Self { x, y, z }
    }
}

fn point_cmp_test<T: Into<Point3>>(a: T, b: T, expected: Option<Ordering>) {
    assert_eq!(a.into().partial_cmp(&b.into()), expected);
}

#[test]
fn basic_equality() {
    point_cmp_test((0., 0., 0.), (0., 0., 0.), Some(Equal));
}

#[test]
fn lesser() {
    point_cmp_test((0., 0., 0.), (1., 1., 1.), Some(Less));
    point_cmp_test((0., 1., 2.), (1., 2., 3.), Some(Less));
}

#[test]
fn greater() {
    point_cmp_test((1., 1., 1.), (0., 0., 0.), Some(Greater));
    point_cmp_test((1., 2., 3.), (0., 1., 2.), Some(Greater));
}

#[test]
fn not_comparable() {
    point_cmp_test((0., 0., 0.), (-1., 0., 1.), None);
    point_cmp_test((-1., 0., 1.), (0., 0., 0.), None);
    point_cmp_test((0., 0., 0.), (0., NAN, 0.), None);
}

#[test]
fn equal_fields_with_one_greater_is_greater() {
    point_cmp_test((0., 5., 0.), (0., 4., 0.), Some(Greater));
    point_cmp_test((0., 4., 0.), (0., 5., 0.), Some(Less));
}

#[test]
fn no_fields_compare_equal() {
    assert_eq!(strict_partial_ord(&[]), Some(Equal));
}

#[test]
fn a_field_that_cannot_be_compared_decides() {
    assert_eq!(strict_partial_ord(&[Some(Greater), None]), None);
    assert_eq!(strict_partial_ord(&[None, Some(Greater)]), None);
    assert_eq!(strict_partial_ord(&[Some(Less), Some(Greater)]), None);
    assert_eq!(strict_partial_ord(&[Some(Greater), Some(Equal), Some(Less)]), None);
}

#[test]
fn permissions_are_ordered_strictly() {
    let none = ReadWritePermissions::none();
    let all = ReadWritePermissions::all();
    let read = ReadWritePermissions { read: true, write: false };
    let write = ReadWritePermissions { read: false, write: true };
    assert_eq!(none.partial_cmp(&all), Some(Less));
    assert_eq!(all.partial_cmp(&none), Some(Greater));
    assert_eq!(read.partial_cmp(&all), Some(Less));
    assert_eq!(read.partial_cmp(&read), Some(Equal));
    assert_eq!(read.partial_cmp(&write), None);
    assert!(none < read);
    assert!(all > write);
    assert!(!(read < write) && !(read > write));
}

#[test]
fn permission_levels() {
    assert!(ReadWritePermissions::all().is_all());
    assert!(!ReadWritePermissions::all().is_none());
    assert!(ReadWritePermissions::none().is_none());
    assert!(!ReadWritePermissions::none().is_all());
    let read = ReadWritePermissions { read: true, write: false };
    assert!(!read.is_all() && !read.is_none());
    assert_eq!(ReadWritePermissions::default(), ReadWritePermissions::none());
    assert_eq!(ReadWritePermissions::all(), ReadWritePermissions { read: true, write: true });
}
