use vstd::prelude::*;
use vstd::string::*;

use crate::error::Error;
use crate::text::str_eq;

verus! {

/// The charset carried by a text content type.
#[derive(Clone, Copy, Debug, PartialEq, Eq, Structural)]
pub enum Charset {
    UTF8,
    UTF16,
}

impl Charset {
    /// The rendered name of the charset.
    pub open spec fn text(self) -> Seq<char> {
        match self {
            Charset::UTF8 => "utf-8"@,
            Charset::UTF16 => "utf-16"@,
        }
    }

    /// The charset a name stands for, if any.
    pub open spec fn parse(s: Seq<char>) -> Result<Charset, Error> {
        if s == "utf-8"@ {
            Ok(Charset::UTF8)
        } else if s == "utf-16"@ {
            Ok(Charset::UTF16)
        } else {
            Err(Error::InvalidCharset)
        }
    }

    /// Renders the charset as `utf-8` or `utf-16`.
    pub fn to_string(self) -> (r: String)
        ensures
            r@ == self.text(),
    {
        match self {
            Charset::UTF8 => String::from_str("utf-8"),
            Charset::UTF16 => String::from_str("utf-16"),
        }
    }

    /// Reads a charset name; anything but the two names is an error.
    pub fn from_string(s: &str) -> (r: Result<Charset, Error>)
        ensures
            r == Charset::parse(s@),
    {
        if str_eq(s, "utf-8") {
            Ok(Charset::UTF8)
        } else if str_eq(s, "utf-16") {
            Ok(Charset::UTF16)
        } else {
            Err(Error::InvalidCharset)
        }
    }
}

impl Default for Charset {
    fn default() -> (r: Charset)
        ensures
            r == Charset::UTF8,
    {
        Charset::UTF8
    }
}

/// The value of the `Accept` header sent with a request.
#[derive(Clone, Copy, Debug, PartialEq, Eq, Structural)]
pub enum ContentType {
    JSON,
    TEXT { charset: Charset },
}

impl ContentType {
    /// The rendered MIME value.
    pub open spec fn text(self) -> Seq<char> {
        match self {
            ContentType::JSON => "application/json"@,
            ContentType::TEXT { charset } => "text/plain; charset="@ + charset.text(),
        }
    }

    /// The content type a MIME value stands for, if any.
    pub open spec fn parse(s: Seq<char>) -> Result<ContentType, Error> {
        if s == "application/json"@ {
            Ok(ContentType::JSON)
        } else if s == "text/plain; charset=utf-8"@ {
            Ok(ContentType::TEXT { charset: Charset::UTF8 })
        } else if s == "text/plain; charset=utf-16"@ {
            Ok(ContentType::TEXT { charset: Charset::UTF16 })
        } else {
            Err(Error::InvalidContentType)
        }
    }

    /// Renders the MIME value used as the `Accept` header.
    pub fn to_string(self) -> (r: String)
        ensures
            r@ == self.text(),
    {
        match self {
            ContentType::JSON => String::from_str("application/json"),
            ContentType::TEXT { charset } => {
                let mut r = String::from_str("text/plain; charset=");
                let c = charset.to_string();
                r.append(c.as_str());
                r
            },
        }
    }

    /// Reads a MIME value; anything but the three known values is an error.
    pub fn from_string(s: &str) -> (r: Result<ContentType, Error>)
        ensures
            r == ContentType::parse(s@),
    {
        if str_eq(s, "application/json") {
            Ok(ContentType::JSON)
        } else if str_eq(s, "text/plain; charset=utf-8") {
            Ok(ContentType::TEXT { charset: Charset::UTF8 })
        } else if str_eq(s, "text/plain; charset=utf-16") {
            Ok(ContentType::TEXT { charset: Charset::UTF16 })
        } else {
            Err(Error::InvalidContentType)
        }
    }
}

impl Default for ContentType {
    fn default() -> (r: ContentType)
        ensures
            r == ContentType::JSON,
    {
        ContentType::JSON
    }
}

/// Rendering a content type and reading it back gives the same value.
pub proof fn lemma_content_type_round_trip(c: ContentType)
    ensures
        ContentType::parse(c.text()) == Ok::<ContentType, Error>(c),
{
    reveal_strlit("application/json");
    reveal_strlit("text/plain; charset=");
    reveal_strlit("text/plain; charset=utf-8");
    reveal_strlit("text/plain; charset=utf-16");
    reveal_strlit("utf-8");
    reveal_strlit("utf-16");
    match c {
        ContentType::JSON => {},
        ContentType::TEXT { charset } => {
            match charset {
                Charset::UTF8 => {
                    assert(c.text() =~= "text/plain; charset=utf-8"@);
                },
                Charset::UTF16 => {
                    assert(c.text() =~= "text/plain; charset=utf-16"@);
                },
            }
        },
    }
}

/// Rendering a charset and reading it back gives the same value.
pub proof fn lemma_charset_round_trip(c: Charset)
    ensures
        Charset::parse(c.text()) == Ok::<Charset, Error>(c),
{
    reveal_strlit("utf-8");
    reveal_strlit("utf-16");
    if c == Charset::UTF16 {
        assert("utf-16"@.len() != "utf-8"@.len());
    }
}

} // verus!
