//! The kinds of request that a tenant's limiter counts.
use vstd::prelude::*;

verus! {

#[derive(Debug, Clone, Copy, PartialEq, Eq, Hash)]
pub enum RequestLimiterKind {
    CoordDataIn,
    CoordDataOut,
    CoordQueries,
    CoordWrites,
    HttpDataIn,
    HttpDataOut,
    HttpQueries,
    HttpWrites,
}

/// The name of a kind, as it is printed.
pub open spec fn limiter_kind_name(k: RequestLimiterKind) -> Seq<char> {
    match k {
        RequestLimiterKind::CoordDataIn => "CoordDataIn"@,
        RequestLimiterKind::CoordDataOut => "CoordDataOut"@,
        RequestLimiterKind::CoordQueries => "CoordQueries"@,
        RequestLimiterKind::CoordWrites => "CoordWrites"@,
        RequestLimiterKind::HttpDataIn => "HttpDataIn"@,
        RequestLimiterKind::HttpDataOut => "HttpDataOut"@,
        RequestLimiterKind::HttpQueries => "HttpQueries"@,
        RequestLimiterKind::HttpWrites => "HttpWrites"@,
    }
}

impl RequestLimiterKind {
    /// The variant's name.
    pub fn to_string(&self) -> (r: String)
        ensures
            r@ == limiter_kind_name(*self),
    {
        match self {
            RequestLimiterKind::CoordDataIn => "CoordDataIn".to_owned(),
            RequestLimiterKind::CoordDataOut => "CoordDataOut".to_owned(),
            RequestLimiterKind::CoordQueries => "CoordQueries".to_owned(),
            RequestLimiterKind::CoordWrites => "CoordWrites".to_owned(),
            RequestLimiterKind::HttpDataIn => "HttpDataIn".to_owned(),
            RequestLimiterKind::HttpDataOut => "HttpDataOut".to_owned(),
            RequestLimiterKind::HttpQueries => "HttpQueries".to_owned(),
            RequestLimiterKind::HttpWrites => "HttpWrites".to_owned(),
        }
    }
}

} // verus!
