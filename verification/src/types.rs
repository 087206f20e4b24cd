//! Validation of arbitrary values against CSS data types and properties.
//!
//! The CSS grammar itself is lightningcss's: each check below is one call
//! into it, and what it accepts is given a name rather than restated.
use vstd::prelude::*;
use lightningcss::traits::Parse;
use lightningcss::properties::{Property, PropertyId};
use lightningcss::values::color::CssColor;
use lightningcss::values::ident::Ident;
use lightningcss::values::image::Image;
use lightningcss::values::length::{Length, LengthPercentage};
use lightningcss::values::number::CSSNumber;
use lightningcss::values::percentage::Percentage;
use lightningcss::values::time::Time;

verus! {

/// Whether lightningcss parses the whole of `s` as a `<color>`.
pub uninterp spec fn is_css_color(s: Seq<char>) -> bool;

/// Whether lightningcss parses the whole of `s` as a `<length>`.
pub uninterp spec fn is_css_length(s: Seq<char>) -> bool;

/// Whether lightningcss parses the whole of `s` as a `<length-percentage>`.
pub uninterp spec fn is_css_length_percentage(s: Seq<char>) -> bool;

/// Whether lightningcss parses the whole of `s` as a `<percentage>`.
pub uninterp spec fn is_css_percentage(s: Seq<char>) -> bool;

/// Whether lightningcss parses the whole of `s` as a `<number>`.
pub uninterp spec fn is_css_number(s: Seq<char>) -> bool;

/// Whether lightningcss parses the whole of `s` as an identifier.
pub uninterp spec fn is_css_ident(s: Seq<char>) -> bool;

/// Whether lightningcss parses the whole of `s` as an `<image>`.
pub uninterp spec fn is_css_image(s: Seq<char>) -> bool;

/// Whether lightningcss parses the whole of `s` as a `<time>`.
pub uninterp spec fn is_css_time(s: Seq<char>) -> bool;

/// Whether lightningcss parses `value` as a known value of the property
/// named `name` (neither an error nor a value kept unparsed).
pub uninterp spec fn is_property_value(name: Seq<char>, value: Seq<char>) -> bool;

/// Whether lightningcss knows `name` as a property (rather than taking it
/// for a custom one).
pub uninterp spec fn is_known_property(name: Seq<char>) -> bool;

/// `PropertyId::from(name)` is not `PropertyId::Custom`.
#[verifier::external_body]
fn property_known(name: &str) -> (r: bool)
    ensures
        r == is_known_property(name@),
{
    match PropertyId::from(name) {
        PropertyId::Custom(_) => false,
        _ => true,
    }
}

/// `CssColor::parse_string(value).is_ok()`; the result is named, not restated.
#[verifier::external_body]
fn color_parses(value: &str) -> (r: bool)
    ensures
        r == is_css_color(value@),
{
    CssColor::parse_string(value).is_ok()
}

/// `Length::parse_string(value).is_ok()`.
#[verifier::external_body]
fn length_parses(value: &str) -> (r: bool)
    ensures
        r == is_css_length(value@),
{
    Length::parse_string(value).is_ok()
}

/// `LengthPercentage::parse_string(value).is_ok()`.
#[verifier::external_body]
fn length_percentage_parses(value: &str) -> (r: bool)
    ensures
        r == is_css_length_percentage(value@),
{
    LengthPercentage::parse_string(value).is_ok()
}

/// `Percentage::parse_string(value).is_ok()`.
#[verifier::external_body]
fn percentage_parses(value: &str) -> (r: bool)
    ensures
        r == is_css_percentage(value@),
{
    Percentage::parse_string(value).is_ok()
}

/// `CSSNumber::parse_string(value).is_ok()`.
#[verifier::external_body]
fn number_parses(value: &str) -> (r: bool)
    ensures
        r == is_css_number(value@),
{
    CSSNumber::parse_string(value).is_ok()
}

/// `Ident::parse_string(value).is_ok()`.
#[verifier::external_body]
fn ident_parses(value: &str) -> (r: bool)
    ensures
        r == is_css_ident(value@),
{
    Ident::parse_string(value).is_ok()
}

/// `Image::parse_string(value).is_ok()`.
#[verifier::external_body]
fn image_parses(value: &str) -> (r: bool)
    ensures
        r == is_css_image(value@),
{
    Image::parse_string(value).is_ok()
}

/// `Time::parse_string(value).is_ok()`.
#[verifier::external_body]
fn time_parses(value: &str) -> (r: bool)
    ensures
        r == is_css_time(value@),
{
    Time::parse_string(value).is_ok()
}

/// `Property::parse_string(PropertyId::from(name), value, default options)`,
/// true unless it fails or keeps the value unparsed.
#[verifier::external_body]
fn property_parses(name: &str, value: &str) -> (r: bool)
    ensures
        r == is_property_value(name@, value@),
{
    match Property::parse_string(PropertyId::from(name), value, Default::default()) {
        Ok(Property::Unparsed(_)) => false,
        Ok(_) => true,
        Err(_) => false,
    }
}

/// A check that a value is of some CSS type.
pub trait TypeValidator {
    /// The values that the check accepts.
    spec fn accepts(&self, value: Seq<char>) -> bool;

    fn validate(&self, value: &str) -> (r: bool)
        ensures
            r == self.accepts(value@),
    ;
}

/// The CSS data types that an arbitrary value can be checked against.
#[derive(Clone, Copy, Debug, PartialEq, Eq, Structural)]
pub enum CssDataType {
    Color,
    Length,
    LengthPercentage,
    Percentage,
    Number,
    Ident,
    Image,
    Time,
    Any,
}

impl TypeValidator for CssDataType {
    open spec fn accepts(&self, value: Seq<char>) -> bool {
        match self {
            CssDataType::Color => is_css_color(value),
            CssDataType::Length => is_css_length(value),
            CssDataType::LengthPercentage => is_css_length_percentage(value),
            CssDataType::Percentage => is_css_percentage(value),
            CssDataType::Number => is_css_number(value),
            CssDataType::Ident => is_css_ident(value),
            CssDataType::Image => is_css_image(value),
            CssDataType::Time => is_css_time(value),
            CssDataType::Any => true,
        }
    }

    fn validate(&self, value: &str) -> (r: bool) {
        match self {
            CssDataType::Color => color_parses(value),
            CssDataType::Length => length_parses(value),
            CssDataType::LengthPercentage => length_percentage_parses(value),
            CssDataType::Percentage => percentage_parses(value),
            CssDataType::Number => number_parses(value),
            CssDataType::Ident => ident_parses(value),
            CssDataType::Image => image_parses(value),
            CssDataType::Time => time_parses(value),
            CssDataType::Any => true,
        }
    }
}

/// A CSS property, by name, whose values a value is checked against.
pub struct CssProperty {
    pub name: String,
}

impl CssProperty {
    pub fn new(name: &str) -> (r: CssProperty)
        ensures
            r.name@ == name@,
    {
        CssProperty { name: name.to_owned() }
    }
}

impl TypeValidator for CssProperty {
    open spec fn accepts(&self, value: Seq<char>) -> bool {
        is_property_value(self.name@, value)
    }

    fn validate(&self, value: &str) -> (r: bool) {
        property_parses(self.name.as_str(), value)
    }
}

/// The check a utility applies to arbitrary values.
pub enum Validator {
    DataType(CssDataType),
    Property(CssProperty),
}

/// The abstract form of a [`Validator`].
pub enum ValidatorView {
    DataType(CssDataType),
    Property(Seq<char>),
}

impl View for Validator {
    type V = ValidatorView;

    open spec fn view(&self) -> ValidatorView {
        match self {
            Validator::DataType(t) => ValidatorView::DataType(*t),
            Validator::Property(p) => ValidatorView::Property(p.name@),
        }
    }
}

pub open spec fn opt_validator_view(v: Option<Validator>) -> Option<ValidatorView> {
    match v {
        Some(x) => Some(x@),
        None => None,
    }
}

impl TypeValidator for Validator {
    open spec fn accepts(&self, value: Seq<char>) -> bool {
        match self {
            Validator::DataType(t) => t.accepts(value),
            Validator::Property(p) => p.accepts(value),
        }
    }

    fn validate(&self, value: &str) -> (r: bool) {
        match self {
            Validator::DataType(t) => t.validate(value),
            Validator::Property(p) => p.validate(value),
        }
    }
}


/// The data type a name stands for, in kebab case (`length-percentage`).
pub open spec fn data_type_named(name: Seq<char>) -> Option<CssDataType> {
    if name == "color"@ {
        Some(CssDataType::Color)
    } else if name == "length"@ {
        Some(CssDataType::Length)
    } else if name == "length-percentage"@ {
        Some(CssDataType::LengthPercentage)
    } else if name == "percentage"@ {
        Some(CssDataType::Percentage)
    } else if name == "number"@ {
        Some(CssDataType::Number)
    } else if name == "ident"@ {
        Some(CssDataType::Ident)
    } else if name == "image"@ {
        Some(CssDataType::Image)
    } else if name == "time"@ {
        Some(CssDataType::Time)
    } else if name == "any"@ {
        Some(CssDataType::Any)
    } else {
        None
    }
}

fn str_eq(a: &str, b: &str) -> (r: bool)
    ensures
        r == (a@ == b@),
{
    a.to_owned() == b.to_owned()
}

impl CssDataType {
    /// The data type of a name.
    pub fn from_name(name: &str) -> (r: Option<CssDataType>)
        ensures
            r == data_type_named(name@),
    {
        if str_eq(name, "color") {
            Some(CssDataType::Color)
        } else if str_eq(name, "length") {
            Some(CssDataType::Length)
        } else if str_eq(name, "length-percentage") {
            Some(CssDataType::LengthPercentage)
        } else if str_eq(name, "percentage") {
            Some(CssDataType::Percentage)
        } else if str_eq(name, "number") {
            Some(CssDataType::Number)
        } else if str_eq(name, "ident") {
            Some(CssDataType::Ident)
        } else if str_eq(name, "image") {
            Some(CssDataType::Image)
        } else if str_eq(name, "time") {
            Some(CssDataType::Time)
        } else if str_eq(name, "any") {
            Some(CssDataType::Any)
        } else {
            None
        }
    }
}

/// The message for a name that is neither a data type nor a property.
pub open spec fn unknown_validator_message(name: Seq<char>) -> Seq<char> {
    "expect css data type or property id, found `"@ + name + "`"@
}

impl Validator {
    /// The check a name in a configuration stands for: a data type, else a
    /// known property; an error for anything else.
    pub fn from_name(name: &str) -> (r: Result<Validator, String>)
        ensures
            match data_type_named(name@) {
                Some(t) => r == Ok::<Validator, String>(Validator::DataType(t)),
                None => if is_known_property(name@) {
                    r matches Ok(Validator::Property(p)) && p.name@ == name@
                } else {
                    r matches Err(m) && m@ == unknown_validator_message(name@)
                },
            },
    {
        match CssDataType::from_name(name) {
            Some(t) => Ok(Validator::DataType(t)),
            None => {
                if property_known(name) {
                    Ok(Validator::Property(CssProperty::new(name)))
                } else {
                    let mut m = "expect css data type or property id, found `".to_owned();
                    crate::text::push_str(&mut m, name);
                    crate::text::push_str(&mut m, "`");
                    Err(m)
                }
            },
        }
    }
}
} // verus!
