use vstd::prelude::*;

verus! {

/// A vector of 2 components.
#[allow(non_camel_case_types)]
#[derive(Copy, Clone, Debug, Default)]
pub struct vec2<T>(pub [T; 2]);

impl<T> From<[T; 2]> for vec2<T> {
    fn from(value: [T; 2]) -> Self {
        vec2(value)
    }
}

impl<T> vstd::std_specs::convert::FromSpecImpl<[T; 2]> for vec2<T> {
    open spec fn obeys_from_spec() -> bool {
        true
    }

    open spec fn from_spec(v: [T; 2]) -> Self {
        vec2(v)
    }
}

/// A vector of 3 components.
#[allow(non_camel_case_types)]
#[derive(Copy, Clone, Debug, Default)]
pub struct vec3<T>(pub [T; 3]);

impl<T> From<[T; 3]> for vec3<T> {
    fn from(value: [T; 3]) -> Self {
        vec3(value)
    }
}

impl<T> vstd::std_specs::convert::FromSpecImpl<[T; 3]> for vec3<T> {
    open spec fn obeys_from_spec() -> bool {
        true
    }

    open spec fn from_spec(v: [T; 3]) -> Self {
        vec3(v)
    }
}

/// A vector of 4 components.
#[allow(non_camel_case_types)]
#[derive(Copy, Clone, Debug, Default)]
pub struct vec4<T>(pub [T; 4]);

impl<T> From<[T; 4]> for vec4<T> {
    fn from(value: [T; 4]) -> Self {
        vec4(value)
    }
}

impl<T> vstd::std_specs::convert::FromSpecImpl<[T; 4]> for vec4<T> {
    open spec fn obeys_from_spec() -> bool {
        true
    }

    open spec fn from_spec(v: [T; 4]) -> Self {
        vec4(v)
    }
}

} // verus!
