use vstd::prelude::*;
use vstd::string::StringSliceAdditionalSpecFns;

verus! {

/// The serialization the url crate gives an address it parsed: a function of
/// the address text alone, named here because writing the whole parser down
/// would restate the crate instead of relying on it.
pub uninterp spec fn url_normal_bytes(s: Seq<u8>) -> Seq<u8>;

/// The serialization of a relative reference resolved against a base
/// address: a function of the two texts alone.
pub uninterp spec fn url_join_bytes(base: Seq<u8>, rel: Seq<u8>) -> Seq<u8>;

/// Whether the url crate accepts the text as an absolute address: the
/// success of parsing it, a function of the text alone.
pub uninterp spec fn url_accepts(s: Seq<u8>) -> bool;

/// Whether the relative reference resolves against the base address: the
/// success of parsing the base and joining the reference onto it, a
/// function of the two texts alone.
pub uninterp spec fn url_join_accepts(base: Seq<u8>, rel: Seq<u8>) -> bool;

/// Relies on url::Url::parse and url::Url::as_str: parses the address and
/// hands back the bytes of its serialization. It succeeds exactly on the
/// text the crate accepts as an absolute address; both the acceptance and
/// the serialization depend on the text alone.
#[verifier::external_body]
fn url_parse_normal(s: &[u8]) -> (r: Result<Vec<u8>, ()>)
    ensures
        (r is Ok) == url_accepts(s@),
        r matches Ok(p) ==> p@ == url_normal_bytes(s@),
{
    let text = std::str::from_utf8(s).map_err(|_| ())?;
    let u = url::Url::parse(text).map_err(|_| ())?;
    Ok(u.as_str().as_bytes().to_vec())
}

/// Relies on url::Url::parse, url::Url::join and url::Url::as_str: resolves
/// the relative reference against the base address and hands back the bytes
/// of the result's serialization. It succeeds exactly when the base parses
/// and the reference resolves against it; the acceptance and the
/// serialization depend on the two texts alone.
#[verifier::external_body]
fn url_join_normal(base: &[u8], rel: &str) -> (r: Result<Vec<u8>, ()>)
    ensures
        (r is Ok) == url_join_accepts(base@, rel.spec_bytes()),
        r matches Ok(p) ==> p@ == url_join_bytes(base@, rel.spec_bytes()),
{
    let text = std::str::from_utf8(base).map_err(|_| ())?;
    let u = url::Url::parse(text).map_err(|_| ())?;
    let j = u.join(rel).map_err(|_| ())?;
    Ok(j.as_str().as_bytes().to_vec())
}

/// The bytes with a slash guaranteed at the end: the address as it stands
/// where it already ends in one, else with one appended. The url crate
/// treats a trailing slash as significant when resolving a relative
/// reference, so the service addresses are always formed against one.
pub open spec fn with_trailing_slash(s: Seq<u8>) -> Seq<u8> {
    if s.len() > 0 && s.last() == 47u8 {
        s
    } else {
        s.push(47u8)
    }
}

/// Why an Api could not be built.
#[derive(PartialEq, Eq, Structural, Clone, Copy, Debug)]
pub enum ApiError {
    /// the base address did not parse as an absolute address
    Parse,
}

/// The addresses of the recording service, all derived from one base
/// address: the normalized base with a trailing slash, the authentication
/// address "connect/" under it, and the upload address "api/asciicasts"
/// under it. Each is kept as the bytes of its serialization.
pub struct Api {
    authentication_url: Vec<u8>,
    base_url: Vec<u8>,
    upload_url: Vec<u8>,
}

impl Api {
    /// The normalized base address.
    pub closed spec fn spec_base_url(&self) -> Seq<u8> {
        self.base_url@
    }

    /// The authentication address.
    pub closed spec fn spec_authentication_url(&self) -> Seq<u8> {
        self.authentication_url@
    }

    /// The upload address.
    pub closed spec fn spec_upload_url(&self) -> Seq<u8> {
        self.upload_url@
    }

    /// Builds the service addresses from the base address: the base is
    /// parsed, its serialization given a trailing slash and normalized
    /// again, and the two service addresses joined onto it, exactly as the
    /// named url-crate results say. It succeeds exactly when each of those
    /// steps is accepted.
    pub fn new(base_url: &str) -> (r: Result<Api, ApiError>)
        ensures
            (r is Ok) == ({
                let sl = with_trailing_slash(url_normal_bytes(base_url.spec_bytes()));
                let b = url_normal_bytes(sl);
                url_accepts(base_url.spec_bytes()) && url_accepts(sl) && url_join_accepts(
                    b,
                    "connect/".spec_bytes(),
                ) && url_join_accepts(b, "api/asciicasts".spec_bytes())
            }),
            r matches Ok(a) ==> {
                let b = url_normal_bytes(
                    with_trailing_slash(url_normal_bytes(base_url.spec_bytes())),
                );
                a.spec_base_url() == b && a.spec_authentication_url() == url_join_bytes(
                    b,
                    "connect/".spec_bytes(),
                ) && a.spec_upload_url() == url_join_bytes(b, "api/asciicasts".spec_bytes())
            },
            r matches Err(e) ==> e is Parse,
    {
        let norm = match url_parse_normal(base_url.as_bytes()) {
            Ok(v) => v,
            Err(()) => {
                return Err(ApiError::Parse);
            },
        };
        let mut slashed = norm;
        let n = slashed.len();
        if n == 0 || *slashed.get(n - 1).unwrap() != 47u8 {
            slashed.push(47u8);
        }
        proof {
            assert(slashed@ == with_trailing_slash(
                url_normal_bytes(base_url.spec_bytes()),
            ));
        }
        let base = match url_parse_normal(slashed.as_slice()) {
            Ok(v) => v,
            Err(()) => {
                return Err(ApiError::Parse);
            },
        };
        let authentication_url = match url_join_normal(base.as_slice(), "connect/") {
            Ok(v) => v,
            Err(()) => {
                return Err(ApiError::Parse);
            },
        };
        let upload_url = match url_join_normal(base.as_slice(), "api/asciicasts") {
            Ok(v) => v,
            Err(()) => {
                return Err(ApiError::Parse);
            },
        };
        Ok(Api { authentication_url, base_url: base, upload_url })
    }

    /// The authentication address, as serialized bytes.
    pub fn authentication_url(self) -> (r: Vec<u8>)
        ensures
            r@ == self.spec_authentication_url(),
    {
        self.authentication_url
    }

    /// The normalized base address, as serialized bytes.
    pub fn base_url(self) -> (r: Vec<u8>)
        ensures
            r@ == self.spec_base_url(),
    {
        self.base_url
    }

    /// The upload address, as serialized bytes.
    pub fn upload_url(self) -> (r: Vec<u8>)
        ensures
            r@ == self.spec_upload_url(),
    {
        self.upload_url
    }
}

} // verus!
