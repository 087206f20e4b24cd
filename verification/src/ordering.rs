//! Keys that order generated utilities.
use vstd::prelude::*;

verus! {

#[derive(Clone, Copy, Debug, Hash, PartialEq, Eq, Structural)]
pub enum OrderingKey {
    Translate,
    TranslateAxis,
    Scale,
    ScaleAxis,
    Rotate,
    RotateAxis,
    Skew,
    SkewAxis,
    Transform,
    Margin,
    MarginAxis,
    MarginSide,
    Padding,
    PaddingAxis,
    PaddingSide,
    SpaceAxis,
    Rounded,
    RoundedSide,
    RoundedCorner,
    Inset,
    InsetAxis,
    InsetSide,
    PositionSide,
    BorderSpacing,
    BorderSpacingAxis,
    BorderColor,
    BorderColorAxis,
    BorderColorSide,
    BorderWidth,
    BorderWidthAxis,
    BorderWidthSide,
    Size,
    SizeAxis,
    Disorder,
    Grouped,
    Property,
}

impl OrderingKey {
    /// The position of the key in declaration order, by which keys compare.
    pub open spec fn rank(self) -> int {
        match self {
            OrderingKey::Translate => 0,
            OrderingKey::TranslateAxis => 1,
            OrderingKey::Scale => 2,
            OrderingKey::ScaleAxis => 3,
            OrderingKey::Rotate => 4,
            OrderingKey::RotateAxis => 5,
            OrderingKey::Skew => 6,
            OrderingKey::SkewAxis => 7,
            OrderingKey::Transform => 8,
            OrderingKey::Margin => 9,
            OrderingKey::MarginAxis => 10,
            OrderingKey::MarginSide => 11,
            OrderingKey::Padding => 12,
            OrderingKey::PaddingAxis => 13,
            OrderingKey::PaddingSide => 14,
            OrderingKey::SpaceAxis => 15,
            OrderingKey::Rounded => 16,
            OrderingKey::RoundedSide => 17,
            OrderingKey::RoundedCorner => 18,
            OrderingKey::Inset => 19,
            OrderingKey::InsetAxis => 20,
            OrderingKey::InsetSide => 21,
            OrderingKey::PositionSide => 22,
            OrderingKey::BorderSpacing => 23,
            OrderingKey::BorderSpacingAxis => 24,
            OrderingKey::BorderColor => 25,
            OrderingKey::BorderColorAxis => 26,
            OrderingKey::BorderColorSide => 27,
            OrderingKey::BorderWidth => 28,
            OrderingKey::BorderWidthAxis => 29,
            OrderingKey::BorderWidthSide => 30,
            OrderingKey::Size => 31,
            OrderingKey::SizeAxis => 32,
            OrderingKey::Disorder => 33,
            OrderingKey::Grouped => 34,
            OrderingKey::Property => 35,
        }
    }

    /// The position of the key in declaration order.
    pub fn index(&self) -> (r: u8)
        ensures
            r as int == self.rank(),
    {
        match self {
            OrderingKey::Translate => 0,
            OrderingKey::TranslateAxis => 1,
            OrderingKey::Scale => 2,
            OrderingKey::ScaleAxis => 3,
            OrderingKey::Rotate => 4,
            OrderingKey::RotateAxis => 5,
            OrderingKey::Skew => 6,
            OrderingKey::SkewAxis => 7,
            OrderingKey::Transform => 8,
            OrderingKey::Margin => 9,
            OrderingKey::MarginAxis => 10,
            OrderingKey::MarginSide => 11,
            OrderingKey::Padding => 12,
            OrderingKey::PaddingAxis => 13,
            OrderingKey::PaddingSide => 14,
            OrderingKey::SpaceAxis => 15,
            OrderingKey::Rounded => 16,
            OrderingKey::RoundedSide => 17,
            OrderingKey::RoundedCorner => 18,
            OrderingKey::Inset => 19,
            OrderingKey::InsetAxis => 20,
            OrderingKey::InsetSide => 21,
            OrderingKey::PositionSide => 22,
            OrderingKey::BorderSpacing => 23,
            OrderingKey::BorderSpacingAxis => 24,
            OrderingKey::BorderColor => 25,
            OrderingKey::BorderColorAxis => 26,
            OrderingKey::BorderColorSide => 27,
            OrderingKey::BorderWidth => 28,
            OrderingKey::BorderWidthAxis => 29,
            OrderingKey::BorderWidthSide => 30,
            OrderingKey::Size => 31,
            OrderingKey::SizeAxis => 32,
            OrderingKey::Disorder => 33,
            OrderingKey::Grouped => 34,
            OrderingKey::Property => 35,
        }
    }

    /// The default key: `Disorder`.
    pub fn default() -> (r: OrderingKey)
        ensures
            r == OrderingKey::Disorder,
    {
        OrderingKey::Disorder
    }
}

} // verus!
