//! Typed model of the license server's response.
//!
//! The server answers a listing command with an object that maps the
//! well-known key `"licenses"` to an array of license entries.  Each entry
//! names a product with a server-specific string tag; the tags map to a
//! closed set of product kinds, and any unrecognized tag maps to
//! [`Product::Other`] rather than failing the response.

use vstd::prelude::*;

use crate::version::HoudiniVersion;
use crate::version::VersionParseError;

verus! {

/// The product kinds the server is known to report, plus a catch-all for
/// tags outside the known set.
#[derive(Clone, Copy, Debug, PartialEq, Eq, Structural)]
pub enum Product {
    HoudiniFx,
    HoudiniCore,
    KarmaRenderer,
    Render,
    HoudiniEngine,
    Other,
}

/// One user session as the server reports it; passthrough data the engine
/// does not interpret.
#[derive(Clone, Debug)]
pub struct User {
    pub id: i32,
    pub machine: String,
    pub time: String,
}

/// One entry of the server's license listing.  `available` is kept exactly
/// as reported, even when negative.
#[derive(Clone, Debug)]
pub struct License {
    pub id: String,
    pub platform: String,
    pub product: String,
    pub product_id: Product,
    pub version: HoudiniVersion,
    pub available: i32,
    pub total_tokens: i32,
    pub expires: String,
    pub ip_mask: String,
    pub ipmatch: bool,
    pub servers: String,
    pub signature: String,
    pub license_access_mode: String,
}

/// The server's response: the ordered list of license entries found under
/// the `"licenses"` key.
#[derive(Clone, Debug)]
pub struct ResponseEnvelope {
    pub licenses: Vec<License>,
}

/// Why a response body failed to interpret.
#[derive(Clone, Copy, Debug, PartialEq, Eq, Structural)]
pub enum ResponseParseError {
    /// The body is not valid JSON at all.
    MalformedJson,
    /// The body is a JSON value without the required `"licenses"` key.
    MissingLicensesKey,
    /// The `"licenses"` key is present but does not hold an array.
    LicensesNotArray,
    /// A license entry is not an object, or a required field is missing or
    /// of the wrong type.
    MalformedRecord,
    /// A license entry's seat count does not fit the expected width.
    CountOutOfRange,
    /// A license entry's version string is malformed.
    InvalidVersion(VersionParseError),
}

/// Character-wise string equality, decided without trusting any outside
/// comparison.
pub fn str_eq(a: &str, b: &str) -> (r: bool)
    ensures
        r == (a@ == b@),
{
    let na = a.unicode_len();
    let nb = b.unicode_len();
    if na != nb {
        return false;
    }
    let mut i: usize = 0;
    while i < na
        invariant
            0 <= i <= na,
            na == a@.len(),
            na == b@.len(),
            forall|j: int| 0 <= j < i ==> a@[j] == b@[j],
        decreases na - i,
    {
        if a.get_char(i) != b.get_char(i) {
            return false;
        }
        i += 1;
    }
    proof {
        assert(a@ =~= b@);
    }
    true
}

/// The fixed lookup from the server's wire tag to a product kind.
pub open spec fn spec_product_from_tag(tag: Seq<char>) -> Product {
    if tag == "Houdini-Master"@ {
        Product::HoudiniFx
    } else if tag == "Houdini-Escape"@ {
        Product::HoudiniCore
    } else if tag == "Karma-Render"@ {
        Product::KarmaRenderer
    } else if tag == "Render"@ {
        Product::Render
    } else if tag == "Houdini-Engine"@ {
        Product::HoudiniEngine
    } else {
        Product::Other
    }
}

/// Map a wire tag to its product kind; unrecognized tags map to
/// [`Product::Other`], never to a failure.
pub fn product_from_tag(tag: &str) -> (r: Product)
    ensures
        r == spec_product_from_tag(tag@),
{
    if str_eq(tag, "Houdini-Master") {
        Product::HoudiniFx
    } else if str_eq(tag, "Houdini-Escape") {
        Product::HoudiniCore
    } else if str_eq(tag, "Karma-Render") {
        Product::KarmaRenderer
    } else if str_eq(tag, "Render") {
        Product::Render
    } else if str_eq(tag, "Houdini-Engine") {
        Product::HoudiniEngine
    } else {
        Product::Other
    }
}

/// The human-readable cause each failure carries.
pub open spec fn spec_message(e: ResponseParseError) -> Seq<char> {
    match e {
        ResponseParseError::MalformedJson => "response is not valid JSON"@,
        ResponseParseError::MissingLicensesKey => "response has no licenses key"@,
        ResponseParseError::LicensesNotArray => "licenses key does not hold an array"@,
        ResponseParseError::MalformedRecord => "malformed license record"@,
        ResponseParseError::CountOutOfRange => "license count out of range"@,
        ResponseParseError::InvalidVersion(VersionParseError::NoSeparator) => {
            "license version has no separator"@
        },
        ResponseParseError::InvalidVersion(VersionParseError::InvalidMajor) => {
            "license version has a malformed major part"@
        },
        ResponseParseError::InvalidVersion(VersionParseError::InvalidMinor) => {
            "license version has a malformed minor part"@
        },
    }
}

impl ResponseParseError {
    /// The human-readable cause carried by this error; see [`spec_message`].
    pub fn message(&self) -> (r: String)
        ensures
            r@ == spec_message(*self),
    {
        let m: &str = match self {
            ResponseParseError::MalformedJson => "response is not valid JSON",
            ResponseParseError::MissingLicensesKey => "response has no licenses key",
            ResponseParseError::LicensesNotArray => "licenses key does not hold an array",
            ResponseParseError::MalformedRecord => "malformed license record",
            ResponseParseError::CountOutOfRange => "license count out of range",
            ResponseParseError::InvalidVersion(VersionParseError::NoSeparator) => {
                "license version has no separator"
            },
            ResponseParseError::InvalidVersion(VersionParseError::InvalidMajor) => {
                "license version has a malformed major part"
            },
            ResponseParseError::InvalidVersion(VersionParseError::InvalidMinor) => {
                "license version has a malformed minor part"
            },
        };
        m.to_owned()
    }
}

} // verus!
