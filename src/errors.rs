use vstd::prelude::*;

verus! {

/// The message for a service name that is not registered.
pub open spec fn spec_not_registered(name: Seq<char>) -> Seq<char> {
    name + " is not register, please register the sevice"@
}

/// The closed set of outcome messages used in response envelopes.
#[derive(Debug)]
pub enum ResponseErrors {
    Success,
    ServiceUnAvailable,
    ServiceNotRegister(String),
    TransportFailure,
    Error,
    OAuthRefreshConfigMissingError,
    InternalServerError,
}

impl ResponseErrors {
    /// The text carried in the `message` (or `status`) field of an envelope.
    pub open spec fn spec_message(&self) -> Seq<char> {
        match self {
            ResponseErrors::Success => "success"@,
            ResponseErrors::ServiceUnAvailable => "service unavailable"@,
            ResponseErrors::ServiceNotRegister(name) => spec_not_registered(name@),
            ResponseErrors::TransportFailure => "Unknown transport failure"@,
            ResponseErrors::Error => "error"@,
            ResponseErrors::OAuthRefreshConfigMissingError => "oauth refresh config is missing"@,
            ResponseErrors::InternalServerError => "internal server error"@,
        }
    }

    pub fn message(&self) -> (r: String)
        ensures
            r@ == self.spec_message(),
    {
        match self {
            ResponseErrors::Success => String::from_str("success"),
            ResponseErrors::ServiceUnAvailable => String::from_str("service unavailable"),
            ResponseErrors::ServiceNotRegister(name) => {
                let mut s = name.clone();
                s.append(" is not register, please register the sevice");
                s
            },
            ResponseErrors::TransportFailure => String::from_str("Unknown transport failure"),
            ResponseErrors::Error => String::from_str("error"),
            ResponseErrors::OAuthRefreshConfigMissingError => String::from_str(
                "oauth refresh config is missing",
            ),
            ResponseErrors::InternalServerError => String::from_str("internal server error"),
        }
    }
}

/// Messages for successful administrative operations.
#[derive(Debug)]
pub enum ResponseSuccess {
    ServiceRegisterSuccessfully(String),
}

impl ResponseSuccess {
    pub open spec fn spec_message(&self) -> Seq<char> {
        match self {
            ResponseSuccess::ServiceRegisterSuccessfully(name) => name@
                + " has been register successfully"@,
        }
    }

    pub fn message(&self) -> (r: String)
        ensures
            r@ == self.spec_message(),
    {
        match self {
            ResponseSuccess::ServiceRegisterSuccessfully(name) => {
                let mut s = name.clone();
                s.append(" has been register successfully");
                s
            },
        }
    }
}

/// An error carrying a human-readable explanation.
#[derive(Debug)]
pub struct ValidationError(pub String);

impl ValidationError {
    /// The explanation, as shown to a caller.
    pub fn message(&self) -> (r: String)
        ensures
            r@ == self.0@,
    {
        self.0.clone()
    }
}

/// A generic envelope: a success flag, a message and optional data.
#[derive(Debug)]
pub struct ResponseBuilder<T> {
    pub status: bool,
    pub message: String,
    pub data: Option<T>,
}

impl<T> ResponseBuilder<T> {
    pub fn success(msg: String, data: T) -> (r: Self)
        ensures
            r.status,
            r.message@ == msg@,
            r.data == Some(data),
    {
        ResponseBuilder { status: true, message: msg, data: Some(data) }
    }

    pub fn bad_request(msg: String) -> (r: Self)
        ensures
            !r.status,
            r.message@ == msg@,
            r.data is None,
    {
        ResponseBuilder { status: false, message: msg, data: None }
    }
}

} // verus!
