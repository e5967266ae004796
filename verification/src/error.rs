use vstd::prelude::*;

verus! {

/// The ways in which a catalog request can fail.
#[derive(Debug, Clone, Copy, PartialEq, Eq, Structural)]
pub enum CatalogError {
    /// The request path or the token in it has the wrong shape.
    Format,
    /// The token is not base64, or what it holds is not JSON.
    Decode,
    /// The bytes that the token holds are not text.
    Encoding,
    /// The token's source tag names no provider that is known here.
    UnsupportedSource,
    /// A list is asked for and the descriptor names none.
    MissingListId,
    /// The provider could not be reached, or it refused.
    Upstream,
    /// A document does not follow its schema.
    Parse,
}

/// What a failure is called when it is reported.
pub open spec fn message_of(error: CatalogError) -> Seq<char> {
    match error {
        CatalogError::Format => "the request path is malformed"@,
        CatalogError::Decode => "the catalog id does not decode"@,
        CatalogError::Encoding => "the catalog id does not hold text"@,
        CatalogError::UnsupportedSource => "the catalog source is not supported"@,
        CatalogError::MissingListId => "the list endpoint needs a list id"@,
        CatalogError::Upstream => "the provider could not be reached or refused"@,
        CatalogError::Parse => "the document does not follow its schema"@,
    }
}

impl CatalogError {
    /// Whether the failure lies with the provider and not with the request.
    pub open spec fn is_upstream(self) -> bool {
        self == CatalogError::Upstream
    }

    /// A sentence that says what failed.
    pub fn message(&self) -> (text: String)
        ensures
            text@ == message_of(*self),
    {
        match self {
            CatalogError::Format => "the request path is malformed".to_owned(),
            CatalogError::Decode => "the catalog id does not decode".to_owned(),
            CatalogError::Encoding => "the catalog id does not hold text".to_owned(),
            CatalogError::UnsupportedSource => "the catalog source is not supported".to_owned(),
            CatalogError::MissingListId => "the list endpoint needs a list id".to_owned(),
            CatalogError::Upstream => "the provider could not be reached or refused".to_owned(),
            CatalogError::Parse => "the document does not follow its schema".to_owned(),
        }
    }

    /// The HTTP status that reports the failure: 502 where the provider
    /// failed, 400 where the request is at fault.
    pub fn http_status(&self) -> (status: u16)
        ensures
            status == if self.is_upstream() {
                502u16
            } else {
                400u16
            },
    {
        match self {
            CatalogError::Upstream => 502,
            _ => 400,
        }
    }
}

} // verus!
