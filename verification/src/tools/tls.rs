//! Where the CA bundle of an installation lies.
use crate::text::joined;
use vstd::prelude::*;
use vstd::string::*;

verus! {

/// Adjoins a relative path to a base path, as `Path::join` does on Unix: a
/// separator goes between them unless the base is empty or already ends
/// with one.
pub open spec fn joined_path(base: Seq<char>, relative: Seq<char>) -> Seq<char> {
    if base.len() == 0 || base.last() == '/' {
        base + relative
    } else {
        base + "/"@ + relative
    }
}

/// Adjoins a relative path (one that does not start with `/`) to a base path.
pub fn join_path(base: &str, relative: &str) -> (r: String)
    ensures
        r@ == joined_path(base@, relative@),
{
    let n = base.unicode_len();
    if n == 0 || base.get_char(n - 1) == '/' {
        joined(base, relative)
    } else {
        let with_sep = joined(base, "/");
        let r = joined(with_sep.as_str(), relative);
        assert(r@ == base@ + "/"@ + relative@);
        r
    }
}

/// Why the CA bundle cannot be found.
#[derive(Clone, Copy, Debug, PartialEq, Eq, Structural)]
pub enum TlsError {
    /// `CERT_BASE` is not set.
    MissingCertBase,
}

/// The path of the CA bundle: `endpoints/ca-bundle.pem` under the value of
/// `CERT_BASE`.
pub fn default_ca_certs_path(cert_base: Option<String>) -> (r: Result<String, TlsError>)
    ensures
        cert_base is None <==> r == Err::<String, TlsError>(TlsError::MissingCertBase),
        cert_base matches Some(b) ==> (r matches Ok(p) && p@ == joined_path(
            b@,
            "endpoints/ca-bundle.pem"@,
        )),
{
    match cert_base {
        Some(b) => Ok(join_path(b.as_str(), "endpoints/ca-bundle.pem")),
        None => Err(TlsError::MissingCertBase),
    }
}

} // verus!
