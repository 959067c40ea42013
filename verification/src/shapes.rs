//! Users and areas: plain records and what is computed from them.

use crate::adder::Rectangle;
use vstd::prelude::*;

verus! {

/// An account.
pub struct User {
    pub active: bool,
    pub username: String,
    pub email: String,
    pub sign_in_count: u64,
}

/// A new account: active, and signed in once.
pub fn build_user(email: String, username: String) -> (user: User)
    ensures
        user.active,
        user.username == username,
        user.email == email,
        user.sign_in_count == 1,
{
    User { active: true, username, email, sign_in_count: 1 }
}

/// The area of a rectangle of the given width and height.
pub fn area_w_h(width: u32, height: u32) -> (area: u32)
    requires
        width * height <= u32::MAX,
    ensures
        area == width * height,
{
    width * height
}

/// The area of a rectangle given as a pair of width and height.
pub fn area_dims(dimensions: (u32, u32)) -> (area: u32)
    requires
        dimensions.0 * dimensions.1 <= u32::MAX,
    ensures
        area == dimensions.0 * dimensions.1,
{
    dimensions.0 * dimensions.1
}

/// The area of `rect`.
pub fn area_rect(rect: Rectangle) -> (area: u32)
    requires
        rect.height * rect.width <= u32::MAX,
    ensures
        area == rect.height * rect.width,
{
    rect.height * rect.width
}

} // verus!
