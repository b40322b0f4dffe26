//! A probe target: a monitor's id, name, URL and timeout.
use vstd::prelude::*;

verus! {

/// What one HTTP check needs to know about its monitor.
#[derive(Clone, Debug, PartialEq, Eq)]
pub struct HttpChecker {
    id: i64,
    name: String,
    url: String,
    timeout_secs: u64,
}

impl View for HttpChecker {
    /// The id, the name, the URL and the timeout in whole seconds.
    type V = (i64, Seq<char>, Seq<char>, u64);

    closed spec fn view(&self) -> (i64, Seq<char>, Seq<char>, u64) {
        (self.id, self.name@, self.url@, self.timeout_secs)
    }
}

impl HttpChecker {
    /// A probe target with a timeout of `timeout_secs` whole seconds.
    pub fn new(id: i64, name: String, url: String, timeout_secs: u64) -> (r: Self)
        ensures
            r@ == (id, name@, url@, timeout_secs),
    {
        HttpChecker { id, name, url, timeout_secs }
    }

    /// The monitor's id.
    pub fn id(&self) -> (r: i64)
        ensures
            r == self@.0,
    {
        self.id
    }

    /// The monitor's name.
    pub fn name(&self) -> (r: &str)
        ensures
            r@ == self@.1,
    {
        self.name.as_str()
    }

    /// The URL to probe.
    pub fn url(&self) -> (r: &str)
        ensures
            r@ == self@.2,
    {
        self.url.as_str()
    }

    /// The probe's timeout in whole seconds.
    pub fn timeout_secs(&self) -> (r: u64)
        ensures
            r == self@.3,
    {
        self.timeout_secs
    }
}

} // verus!
