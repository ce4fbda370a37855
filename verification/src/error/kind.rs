use vstd::prelude::*;

verus! {

/// Which field of the fixed-size header was cut short when parsing.
#[derive(Clone, Copy, Debug, PartialEq, Eq, Structural)]
pub enum Kind {
    Iv,
    Key,
    Hmac,
    Header,
}

/// The name of the truncated field, as it appears in error messages.
pub open spec fn kind_label(k: Kind) -> Seq<char> {
    match k {
        Kind::Iv => "iv"@,
        Kind::Key => "key"@,
        Kind::Hmac => "hmac"@,
        Kind::Header => "header"@,
    }
}

impl Kind {
    /// The field's name, for error reporting.
    pub fn label(&self) -> (r: String)
        ensures
            r@ == kind_label(*self),
    {
        match self {
            Kind::Iv => String::from_str("iv"),
            Kind::Key => String::from_str("key"),
            Kind::Hmac => String::from_str("hmac"),
            Kind::Header => String::from_str("header"),
        }
    }
}

} // verus!
