//! Checks of xet URL parsing against expected parts, for use by tests.
//!
//! Each `assert_*` routine states as its precondition the assertion it makes, so
//! a verified caller proves the assertion; each `check_*` routine tests the same
//! condition at run time and calls the `assert_*` routine only where it holds.

use vstd::prelude::*;

use crate::errors::{GitXetRepoError, RepoErrorView};
use crate::git_url::{spec_parse_xet_url, XetPathInfo, XetPathView, PROD_XETEA_DOMAIN};

verus! {

/// Parsing `xeturl` against `domain` completes, and when it succeeds it gives
/// `expected`.
pub open spec fn parse_gives(xeturl: Seq<char>, domain: Seq<char>, expected: XetPathView) -> bool {
    match spec_parse_xet_url(xeturl, domain) {
        None => false,
        Some(Ok(p)) => p == expected,
        Some(Err(_)) => true,
    }
}

/// Parsing `xeturl` against `domain` completes with an error.
pub open spec fn parse_fails(xeturl: Seq<char>, domain: Seq<char>) -> bool {
    spec_parse_xet_url(xeturl, domain) matches Some(Err(_))
}

/// What an assertion routine returns for `xeturl` and `domain`: the parse
/// error, or `Ok(())`.
pub open spec fn assertion_result(xeturl: Seq<char>, domain: Seq<char>) -> Result<(), RepoErrorView> {
    match spec_parse_xet_url(xeturl, domain) {
        Some(Err(e)) => Err(e),
        _ => Ok(()),
    }
}

/// The view of an assertion routine's result.
pub open spec fn unit_result_view(r: Result<(), GitXetRepoError>) -> Result<(), RepoErrorView> {
    match r {
        Ok(()) => Ok(()),
        Err(e) => Err(e@),
    }
}

/// Parses `xeturl` against [`PROD_XETEA_DOMAIN`]; a successful parse equals
/// `expected`. Returns the parse error if there is one.
pub fn assert_xet_url_parse_result(xeturl: &str, expected: &XetPathInfo) -> (r: Result<
    (),
    GitXetRepoError,
>)
    requires
        parse_gives(xeturl@, PROD_XETEA_DOMAIN@, expected@),
    ensures
        unit_result_view(r) == assertion_result(xeturl@, PROD_XETEA_DOMAIN@),
{
    let parsed = match XetPathInfo::parse(xeturl, PROD_XETEA_DOMAIN) {
        Ok(p) => p,
        Err(e) => {
            return Err(e);
        },
    };
    let same = parsed.eq(expected);
    assert(same);
    Ok(())
}

/// Parses `xeturl` against `domain_override`; a successful parse equals
/// `expected`. Returns the parse error if there is one.
pub fn assert_xet_url_with_domain_override_parse_result(
    xeturl: &str,
    domain_override: &str,
    expected: &XetPathInfo,
) -> (r: Result<(), GitXetRepoError>)
    requires
        parse_gives(xeturl@, domain_override@, expected@),
    ensures
        unit_result_view(r) == assertion_result(xeturl@, domain_override@),
{
    let parsed = match XetPathInfo::parse(xeturl, domain_override) {
        Ok(p) => p,
        Err(e) => {
            return Err(e);
        },
    };
    let same = parsed.eq(expected);
    assert(same);
    Ok(())
}

/// Parsing `xeturl` against [`PROD_XETEA_DOMAIN`] fails.
pub fn assert_xet_url_parse_err(xeturl: &str)
    requires
        parse_fails(xeturl@, PROD_XETEA_DOMAIN@),
{
    let parsed = XetPathInfo::parse(xeturl, PROD_XETEA_DOMAIN);
    assert(parsed is Err);
}

/// Runs [`assert_xet_url_parse_result`] where its assertion holds, and gives
/// its result; `None` where the assertion would fail.
pub fn check_xet_url_parse_result(xeturl: &str, expected: &XetPathInfo) -> (r: Option<
    Result<(), GitXetRepoError>,
>)
    ensures
        r is Some <==> parse_gives(xeturl@, PROD_XETEA_DOMAIN@, expected@),
        r matches Some(x) ==> unit_result_view(x) == assertion_result(
            xeturl@,
            PROD_XETEA_DOMAIN@,
        ),
{
    match XetPathInfo::try_parse(xeturl, PROD_XETEA_DOMAIN) {
        None => None,
        Some(Err(_)) => Some(assert_xet_url_parse_result(xeturl, expected)),
        Some(Ok(p)) => {
            if p.eq(expected) {
                Some(assert_xet_url_parse_result(xeturl, expected))
            } else {
                None
            }
        },
    }
}

/// Runs [`assert_xet_url_with_domain_override_parse_result`] where its
/// assertion holds, and gives its result; `None` where the assertion would fail.
pub fn check_xet_url_with_domain_override_parse_result(
    xeturl: &str,
    domain_override: &str,
    expected: &XetPathInfo,
) -> (r: Option<Result<(), GitXetRepoError>>)
    ensures
        r is Some <==> parse_gives(xeturl@, domain_override@, expected@),
        r matches Some(x) ==> unit_result_view(x) == assertion_result(xeturl@, domain_override@),
{
    match XetPathInfo::try_parse(xeturl, domain_override) {
        None => None,
        Some(Err(_)) => Some(
            assert_xet_url_with_domain_override_parse_result(xeturl, domain_override, expected),
        ),
        Some(Ok(p)) => {
            if p.eq(expected) {
                Some(
                    assert_xet_url_with_domain_override_parse_result(
                        xeturl,
                        domain_override,
                        expected,
                    ),
                )
            } else {
                None
            }
        },
    }
}

/// Runs [`assert_xet_url_parse_err`] where its assertion holds; says whether it did.
pub fn check_xet_url_parse_err(xeturl: &str) -> (b: bool)
    ensures
        b == parse_fails(xeturl@, PROD_XETEA_DOMAIN@),
{
    match XetPathInfo::try_parse(xeturl, PROD_XETEA_DOMAIN) {
        Some(Err(_)) => {
            assert_xet_url_parse_err(xeturl);
            true
        },
        _ => false,
    }
}

} // verus!
