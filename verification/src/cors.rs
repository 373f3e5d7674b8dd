use vstd::prelude::*;

verus! {

/// The CORS settings: the origins whose requests may read responses.
#[derive(Debug)]
pub struct Config {
    pub origin: Vec<String>,
}

/// Adds CORS headers to every response.
#[derive(Debug)]
pub struct Cors(pub Config);

/// Whether `origin` is one of the allowed origins.
pub open spec fn origin_allowed(allowed: Seq<String>, origin: Seq<char>) -> bool {
    exists|i: int| 0 <= i < allowed.len() && (#[trigger] allowed[i])@ == origin
}

/// The headers that every response carries.
pub open spec fn fixed_headers() -> Seq<(Seq<char>, Seq<char>)> {
    seq![
        ("Access-Control-Allow-Methods"@, "POST, GET, OPTIONS"@),
        ("Access-Control-Allow-Credentials"@, "true"@),
        ("Access-Control-Allow-Headers"@, "Authorization"@),
    ]
}

/// The headers a response carries for a request from `origin`: the fixed
/// ones, then the origin echoed back when it is allowed.
pub open spec fn response_headers(allowed: Seq<String>, origin: Option<Seq<char>>) -> Seq<
    (Seq<char>, Seq<char>),
> {
    match origin {
        Some(o) => if origin_allowed(allowed, o) {
            fixed_headers().push(("Access-Control-Allow-Origin"@, o))
        } else {
            fixed_headers()
        },
        None => fixed_headers(),
    }
}

/// The text of a header pair.
pub open spec fn header_view(h: (String, String)) -> (Seq<char>, Seq<char>) {
    (h.0@, h.1@)
}

impl Cors {
    /// Whether requests from `origin` may read responses.
    pub fn allows(&self, origin: &String) -> (b: bool)
        ensures
            b == origin_allowed(self.0.origin@, origin@),
    {
        let n = self.0.origin.len();
        let mut i: usize = 0;
        while i < n
            invariant
                n == self.0.origin@.len(),
                i <= n,
                forall|j: int| 0 <= j < i ==> (#[trigger] self.0.origin@[j])@ != origin@,
            decreases n - i,
        {
            if self.0.origin[i] == *origin {
                return true;
            }
            i = i + 1;
        }
        false
    }

    /// The headers to set on a response to a request that carried the
    /// `Origin` header `origin` (or none).
    pub fn on_response(&self, origin: Option<String>) -> (headers: Vec<(String, String)>)
        ensures
            headers@.map_values(|h: (String, String)| header_view(h)) == response_headers(
                self.0.origin@,
                match origin {
                    Some(o) => Some(o@),
                    None => None,
                },
            ),
    {
        let mut headers: Vec<(String, String)> = Vec::new();
        headers.push(("Access-Control-Allow-Methods".to_owned(), "POST, GET, OPTIONS".to_owned()));
        headers.push(("Access-Control-Allow-Credentials".to_owned(), "true".to_owned()));
        headers.push(("Access-Control-Allow-Headers".to_owned(), "Authorization".to_owned()));
        let ghost fixed = headers@;
        assert(fixed.map_values(|h: (String, String)| header_view(h)) =~= fixed_headers());
        match origin {
            Some(o) => {
                if self.allows(&o) {
                    headers.push(("Access-Control-Allow-Origin".to_owned(), o));
                    assert(headers@.map_values(|h: (String, String)| header_view(h))
                        =~= fixed_headers().push(("Access-Control-Allow-Origin"@, o@)));
                }
            },
            None => {},
        }
        headers
    }
}

} // verus!
