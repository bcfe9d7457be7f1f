use vstd::prelude::*;

verus! {

/// Server response codes carried in beat acknowledgements.
///
/// On the wire they are the numbers that [`RespCode::value`] gives.
#[derive(Clone, Copy, PartialEq, Eq, Structural, Debug)]
pub enum RespCode {
    Okay,
    ResourceNotFound,
    NoNeedRetry,
}

impl RespCode {
    /// The numeric code the wire protocol uses for this variant.
    pub open spec fn spec_value(self) -> u32 {
        match self {
            RespCode::Okay => 10200,
            RespCode::ResourceNotFound => 20404,
            RespCode::NoNeedRetry => 21600,
        }
    }

    /// The numeric code the wire protocol uses for this variant.
    pub fn value(&self) -> (v: u32)
        ensures
            v == self.spec_value(),
    {
        match self {
            RespCode::Okay => 10200,
            RespCode::ResourceNotFound => 20404,
            RespCode::NoNeedRetry => 21600,
        }
    }

    /// The variant that a numeric wire code stands for, if any.
    pub fn from_value(v: u32) -> (r: Option<RespCode>)
        ensures
            match r {
                Some(c) => c.spec_value() == v,
                None => v != 10200 && v != 20404 && v != 21600,
            },
    {
        if v == 10200 {
            Some(RespCode::Okay)
        } else if v == 20404 {
            Some(RespCode::ResourceNotFound)
        } else if v == 21600 {
            Some(RespCode::NoNeedRetry)
        } else {
            None
        }
    }
}

/// The library's error taxonomy.
///
/// Failures that originate in outside calls (HTTP transport, JSON codecs,
/// the filesystem) reach the library as plain messages; a non-OK answer of
/// the registry keeps its status and body.
#[derive(Debug)]
pub enum Error {
    /// A filesystem failure: a context phrase and the reported cause.
    Fs(String, String),
    /// A service had no usable host to answer with.
    NoHostToService(String),
    /// A transport failure: connect, send or body read.
    Net(String),
    /// A JSON encode or decode failure.
    Serde(String),
    /// A non-OK answer of the registry: HTTP status and body.
    NacosRemote(u16, String),
    /// A header value could not be encoded.
    InvalidHeaderValue,
    /// Any other failure, described in words.
    Custom(String),
    Unknown,
}

impl Error {
    /// The error in words, as the embedding logs or prints it.
    pub fn message(&self) -> (r: String)
        ensures
            match self {
                Error::Fs(c, e) => r@ == c@ + ": "@ + e@,
                Error::NoHostToService(s) => r@ == "no host to srv serviceInfo: "@ + s@,
                Error::Net(s) => r@ == "transport error: "@ + s@,
                Error::Serde(s) => r@ == "serde error: "@ + s@,
                Error::NacosRemote(status, body) => r@ == "nacos server error; status: "@
                    + crate::util::dec_rep(*status as nat) + ", message: "@ + body@,
                Error::InvalidHeaderValue => r@ == "found invalid header value"@,
                Error::Custom(s) => r@ == s@,
                Error::Unknown => r@ == "unknown error occurred"@,
            },
    {
        match self {
            Error::Fs(c, e) => {
                let mut r = c.clone();
                r.append(": ");
                r.append(e.as_str());
                proof {
                    assert(r@ =~= c@ + ": "@ + e@);
                }
                r
            },
            Error::NoHostToService(s) => {
                let mut r = "no host to srv serviceInfo: ".to_owned();
                r.append(s.as_str());
                r
            },
            Error::Net(s) => {
                let mut r = "transport error: ".to_owned();
                r.append(s.as_str());
                r
            },
            Error::Serde(s) => {
                let mut r = "serde error: ".to_owned();
                r.append(s.as_str());
                r
            },
            Error::NacosRemote(status, body) => {
                let mut r = "nacos server error; status: ".to_owned();
                let d = crate::util::u64_to_dec(*status as u64);
                r.append(d.as_str());
                r.append(", message: ");
                r.append(body.as_str());
                proof {
                    assert(r@ =~= "nacos server error; status: "@ + crate::util::dec_rep(
                        *status as nat,
                    ) + ", message: "@ + body@);
                }
                r
            },
            Error::InvalidHeaderValue => "found invalid header value".to_owned(),
            Error::Custom(s) => s.clone(),
            Error::Unknown => "unknown error occurred".to_owned(),
        }
    }
}

impl Clone for Error {
    fn clone(&self) -> (r: Self)
        ensures
            r == *self,
    {
        match self {
            Error::Fs(a, b) => Error::Fs(a.clone(), b.clone()),
            Error::NoHostToService(a) => Error::NoHostToService(a.clone()),
            Error::Net(a) => Error::Net(a.clone()),
            Error::Serde(a) => Error::Serde(a.clone()),
            Error::NacosRemote(s, b) => Error::NacosRemote(*s, b.clone()),
            Error::InvalidHeaderValue => Error::InvalidHeaderValue,
            Error::Custom(a) => Error::Custom(a.clone()),
            Error::Unknown => Error::Unknown,
        }
    }
}

} // verus!
