use vstd::prelude::*;

use crate::error::AbunchError;

verus! {

/// Number of symbols in a bunch URL.
pub const BUNCH_URL_LEN: usize = 6;

/// The URL-safe alphabet of nanoid: `_`, `-`, the digits and the ASCII letters.
pub open spec fn is_safe_symbol(c: char) -> bool {
    ||| c == '_'
    ||| c == '-'
    ||| ('0' <= c && c <= '9')
    ||| ('a' <= c && c <= 'z')
    ||| ('A' <= c && c <= 'Z')
}

/// A bunch URL is exactly six symbols of the URL-safe alphabet.
pub open spec fn is_bunch_url(s: Seq<char>) -> bool {
    &&& s.len() == BUNCH_URL_LEN as nat
    &&& forall|i: int| 0 <= i < s.len() ==> is_safe_symbol(#[trigger] s[i])
}

/// What reading `s` as a bunch URL gives: the URL itself when it is one.
pub open spec fn parse_bunch_url(s: Seq<char>) -> Option<Seq<char>> {
    if is_bunch_url(s) {
        Some(s)
    } else {
        None
    }
}

/// Whether `c` is one of the symbols of `nanoid::alphabet::SAFE`.
/// The contract restates that constant array (`_`, `-`, `0`-`9`, `a`-`z`,
/// `A`-`Z`) as a predicate; `contains` is std's membership test on it.
#[verifier::external_body]
fn safe_alphabet_contains(c: char) -> (b: bool)
    ensures
        b == is_safe_symbol(c),
{
    nanoid::alphabet::SAFE.contains(&c)
}

/// A fresh random id from `nanoid::format` over `nanoid::alphabet::SAFE`
/// with the default random source, as the `nanoid!` macro expands to.
/// Its source pushes symbols of the alphabet until the id holds `size` of
/// them, so the contract states the length and the alphabet; which symbols
/// come out rests on chance and is not stated.
#[verifier::external_body]
fn nanoid_safe(size: usize) -> (id: String)
    requires
        size >= 1,
    ensures
        id@.len() == size as nat,
        forall|i: int| 0 <= i < id@.len() ==> is_safe_symbol(#[trigger] id@[i]),
{
    nanoid::format(nanoid::rngs::default, &nanoid::alphabet::SAFE, size)
}

/// The short URL under which a bunch is published.
#[derive(Debug)]
pub struct BunchURL(String);

impl View for BunchURL {
    type V = Seq<char>;

    closed spec fn view(&self) -> Seq<char> {
        self.0@
    }
}

impl BunchURL {
    #[verifier::type_invariant]
    closed spec fn wf(self) -> bool {
        is_bunch_url(self.0@)
    }

    /// Whether every symbol of `s` is in the URL-safe alphabet.
    fn all_safe(s: &str) -> (b: bool)
        ensures
            b <==> forall|i: int| 0 <= i < s@.len() ==> is_safe_symbol(#[trigger] s@[i]),
    {
        let n = s.unicode_len();
        let mut i: usize = 0;
        while i < n
            invariant
                n == s@.len(),
                i <= n,
                forall|j: int| 0 <= j < i ==> is_safe_symbol(#[trigger] s@[j]),
            decreases n - i,
        {
            let c = s.get_char(i);
            if !safe_alphabet_contains(c) {
                return false;
            }
            i = i + 1;
        }
        true
    }

    /// A new random bunch URL.
    pub fn new() -> (url: BunchURL)
        ensures
            is_bunch_url(url@),
    {
        BunchURL(nanoid_safe(BUNCH_URL_LEN))
    }

    /// Accepts `url` exactly when it is six symbols of the URL-safe alphabet;
    /// otherwise the error carries the rejected text.
    pub fn try_from(url: String) -> (r: Result<BunchURL, AbunchError>)
        ensures
            r is Ok <==> is_bunch_url(url@),
            r matches Ok(u) ==> u@ == url@ && parse_bunch_url(url@) == Some(u@),
            r is Err ==> parse_bunch_url(url@) is None,
            r matches Err(e) ==> e matches AbunchError::BunchURL(t) && t@ == url@,
    {
        if url.as_str().unicode_len() == BUNCH_URL_LEN && Self::all_safe(url.as_str()) {
            Ok(BunchURL(url))
        } else {
            Err(AbunchError::BunchURL(url))
        }
    }

    /// Reads a bunch URL from a path segment.
    pub fn from_param(param: &str) -> (r: Result<BunchURL, AbunchError>)
        ensures
            r is Ok <==> is_bunch_url(param@),
            r matches Ok(u) ==> u@ == param@ && parse_bunch_url(param@) == Some(u@),
            r is Err ==> parse_bunch_url(param@) is None,
            r matches Err(e) ==> e matches AbunchError::BunchURL(t) && t@ == param@,
    {
        BunchURL::try_from(param.to_owned())
    }

    /// The URL as text.
    pub fn to_string(&self) -> (s: String)
        ensures
            s@ == self@,
            is_bunch_url(s@),
    {
        proof {
            use_type_invariant(self);
        }
        self.0.clone()
    }
}

} // verus!
