//! Trusted wrappers around the process-local entropy source, the clock, and
//! the fake-value library. Each wrapper makes exactly one outside call; the
//! verified generators consume only the plain values returned here.

use vstd::prelude::*;
use rand::Rng;
use fake::Fake;

verus! {

/// Relies on chrono's `Utc::now`: the current time as whole seconds since the
/// Unix epoch. The result depends on the clock, so nothing is promised of it.
#[verifier::external_body]
pub(crate) fn now_timestamp() -> i64 {
    chrono::Utc::now().timestamp()
}

/// Relies on rand's `thread_rng` and `Rng::gen_range`: a draw from the
/// half-open range `lo..hi`, which panics only on an empty range.
#[verifier::external_body]
pub(crate) fn rand_range_i32(lo: i32, hi: i32) -> (r: i32)
    requires
        lo < hi,
    ensures
        lo <= r < hi,
{
    rand::thread_rng().gen_range(lo..hi)
}

/// Relies on rand's `thread_rng` and `Rng::gen_range`: a draw from the
/// half-open range `lo..hi`, which panics only on an empty range.
#[verifier::external_body]
pub(crate) fn rand_range_u64(lo: u64, hi: u64) -> (r: u64)
    requires
        lo < hi,
    ensures
        lo <= r < hi,
{
    rand::thread_rng().gen_range(lo..hi)
}

/// Relies on rand's `thread_rng` and `Rng::gen_ratio`: a coin flip that is
/// true with probability `numerator / denominator`. It panics when the
/// denominator is zero or the numerator exceeds it, so those inputs are
/// excluded; beyond that the outcome is random and nothing is promised.
#[verifier::external_body]
pub(crate) fn rand_ratio(numerator: u32, denominator: u32) -> bool
    requires
        0 < denominator,
        numerator <= denominator,
{
    rand::thread_rng().gen_ratio(numerator, denominator)
}

/// Relies on fake's `internet::Username`: a random user name.
#[verifier::external_body]
pub(crate) fn fake_username() -> String {
    fake::faker::internet::zh_cn::Username().fake()
}

/// Relies on fake's `internet::FreeEmail`: a random e-mail address.
#[verifier::external_body]
pub(crate) fn fake_free_email() -> String {
    fake::faker::internet::zh_cn::FreeEmail().fake()
}

/// Relies on fake's `name::Name`: a random person name. Its template joins
/// a first and a last name with a literal space, so the result is never
/// empty.
#[verifier::external_body]
pub(crate) fn fake_person_name() -> (r: String)
    ensures
        r@.len() > 0,
{
    fake::faker::name::en::Name().fake()
}

/// Relies on fake's `phone_number::PhoneNumber`: a random phone number.
#[verifier::external_body]
pub(crate) fn fake_phone_number() -> String {
    fake::faker::phone_number::en::PhoneNumber().fake()
}

/// Relies on fake's `address::SecondaryAddress`: a random street-level address.
#[verifier::external_body]
pub(crate) fn fake_secondary_address() -> String {
    fake::faker::address::zh_cn::SecondaryAddress().fake()
}

/// Relies on fake's `address::CityName`: a random city name.
#[verifier::external_body]
pub(crate) fn fake_city_name() -> String {
    fake::faker::address::zh_cn::CityName().fake()
}

/// Relies on fake's `address::CountryName`: a random country name.
#[verifier::external_body]
pub(crate) fn fake_country_name() -> String {
    fake::faker::address::zh_cn::CountryName().fake()
}

/// Relies on fake's `address::ZipCode`: a random postal code.
#[verifier::external_body]
pub(crate) fn fake_zip_code() -> String {
    fake::faker::address::zh_cn::ZipCode().fake()
}

/// Relies on fake's `company::CompanyName`: a random company name.
#[verifier::external_body]
pub(crate) fn fake_company_name() -> String {
    fake::faker::company::en::CompanyName().fake()
}

/// Relies on fake's `lorem::Paragraph`: random prose of `lo..hi` sentences,
/// which draws the sentence count from that range and panics if it is empty.
#[verifier::external_body]
pub(crate) fn fake_paragraph(lo: usize, hi: usize) -> String
    requires
        lo < hi,
{
    fake::faker::lorem::en::Paragraph(lo..hi).fake()
}

/// Relies on fake's `barcode::Isbn`: a random ISBN code.
#[verifier::external_body]
pub(crate) fn fake_isbn() -> String {
    fake::faker::barcode::zh_cn::Isbn().fake()
}

/// Relies on fake's `address::StateName`: a random state name.
#[verifier::external_body]
pub(crate) fn fake_state_name() -> String {
    fake::faker::address::en::StateName().fake()
}

/// Relies on std's `format!` to render a street address from two numbers:
/// the template's literal text around the two decimal renderings that
/// `Display` for `u64` documents.
#[verifier::external_body]
pub(crate) fn street_address(building: u64, street: u64) -> (r: String)
    ensures
        r@ == crate::text::decimal_digits(building) + " "@ + crate::text::decimal_digits(street)
            + " St."@,
{
    format!("{} {} St.", building, street)
}

/// Relies on std's `format!` to render a tracking code from a number: the
/// fixed prefix followed by the decimal rendering that `Display` for `u64`
/// documents.
#[verifier::external_body]
pub(crate) fn tracking_code(n: u64) -> (r: String)
    ensures
        r@ == "TRACK-"@ + crate::text::decimal_digits(n),
{
    format!("TRACK-{}", n)
}

/// Relies on std's `format!` to render a length-by-width-by-height label:
/// three decimal renderings, as `Display` for `u64` documents, joined by
/// the template's literal marks.
#[verifier::external_body]
pub(crate) fn dimensions_label(length: u64, width: u64, height: u64) -> (r: String)
    ensures
        r@ == crate::text::decimal_digits(length) + "x"@ + crate::text::decimal_digits(width)
            + "x"@ + crate::text::decimal_digits(height),
{
    format!("{}x{}x{}", length, width, height)
}

} // verus!
