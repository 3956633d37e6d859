use vstd::prelude::*;
use crate::text::{decimal_i32, spec_signed_decimal};

verus! {

/// The screen rectangle of a window, in pixels.
#[derive(Clone, Copy, Debug, PartialEq, Eq, Structural)]
pub struct RECT {
    pub left: i32,
    pub top: i32,
    pub right: i32,
    pub bottom: i32,
}

impl RECT {
    /// `RECT { left: L, top: T, right: R, bottom: B }` with the four sides
    /// in decimal.
    pub open spec fn spec_text(self) -> Seq<char> {
        "RECT { left: "@ + spec_signed_decimal(self.left as int) + ", top: "@
            + spec_signed_decimal(self.top as int) + ", right: "@ + spec_signed_decimal(
            self.right as int,
        ) + ", bottom: "@ + spec_signed_decimal(self.bottom as int) + " }"@
    }

    /// Formats the rectangle as `RECT { left: L, top: T, right: R, bottom: B }`.
    pub fn to_string(&self) -> (r: String)
        ensures
            r@ == self.spec_text(),
    {
        let mut s = String::from_str("RECT { left: ");
        let left = decimal_i32(self.left);
        s.append(left.as_str());
        s.append(", top: ");
        let top = decimal_i32(self.top);
        s.append(top.as_str());
        s.append(", right: ");
        let right = decimal_i32(self.right);
        s.append(right.as_str());
        s.append(", bottom: ");
        let bottom = decimal_i32(self.bottom);
        s.append(bottom.as_str());
        s.append(" }");
        s
    }
}

} // verus!
