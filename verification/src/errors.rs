use vstd::prelude::*;
use vstd::std_specs::convert::FromSpec;
use vstd::std_specs::convert::FromSpecImpl;
use vstd::string::to_string_from_display_ensures;

verus! {

#[verifier::external_type_specification]
#[verifier::external_body]
pub struct ExReqwestError(reqwest::Error);

#[verifier::external_type_specification]
#[verifier::external_body]
pub struct ExMiddlewareError(reqwest_middleware::Error);

#[verifier::external_type_specification]
#[verifier::external_body]
pub struct ExIoError(std::io::Error);

#[verifier::external_type_specification]
#[verifier::external_body]
pub struct ExUrlParseError(url::ParseError);

#[verifier::external_type_specification]
#[verifier::external_body]
pub struct ExTemplateError(indicatif::style::TemplateError);

#[verifier::external_type_specification]
#[verifier::external_body]
pub struct ExJoinError(tokio::task::JoinError);

/// What can go wrong while downloading.
#[derive(Debug)]
pub enum DownloadError {
    Reqwest(reqwest::Error),
    ReqwestMiddleware(reqwest_middleware::Error),
    Tokio(std::io::Error),
    Url(url::ParseError),
    Indicatif(indicatif::style::TemplateError),
    Join(tokio::task::JoinError),
    Custom(String),
    Unrecoverable(u16, String),
}

/// An HTTP status on which retrying is pointless: 401, 403 or 404.
pub open spec fn is_unrecoverable_status(status: u16) -> bool {
    status == 401 || status == 403 || status == 404
}

/// The errors on which downloading is abandoned: an `Unrecoverable` error
/// whose status is 401, 403 or 404.
pub open spec fn is_unrecoverable_error(e: DownloadError) -> bool {
    e matches DownloadError::Unrecoverable(status, _) && is_unrecoverable_status(status)
}

impl DownloadError {
    /// Whether the download should be abandoned rather than retried: only an
    /// `Unrecoverable` error whose status is 401, 403 or 404.
    pub fn is_unrecoverable(&self) -> (b: bool)
        ensures
            b == is_unrecoverable_error(*self),
    {
        match self {
            DownloadError::Unrecoverable(status, _) => *status == 401 || *status == 403 || *status == 404,
            _ => false,
        }
    }
}

/// Whether an `Unrecoverable` error abandons the download depends on its
/// status alone: exactly the statuses 401, 403 and 404, whatever the URL.
pub proof fn lemma_unrecoverable_by_status_alone(status: u16, url: String)
    ensures
        is_unrecoverable_error(DownloadError::Unrecoverable(status, url)) <==> (status == 401
            || status == 403 || status == 404),
{
}

/// The number that a text of decimal digits stands for, reading each
/// character `c` as the digit `c - '0'`, most significant first.
pub open spec fn digits_value(s: Seq<char>) -> int
    decreases s.len(),
{
    if s.len() == 0 {
        0
    } else {
        digits_value(s.drop_last()) * 10 + ((s.last() as u32) as int - 48)
    }
}

proof fn lemma_digit_char(d: nat)
    requires
        d < 10,
    ensures
        (digit_char(d) as u32) as int == 48 + d,
        '0' <= digit_char(d) && digit_char(d) <= '9',
        d != 0 ==> digit_char(d) != '0',
{
    let b: u8 = (48 + d) as u8;
    assert(b as int == 48 + d);
    assert((b as char) as u32 == b as u32);
}

/// A status is written in standard decimal: only the characters `'0'`..`'9'`,
/// at least one, no leading zero, and read back it is the number itself.
pub proof fn lemma_decimal_reads_back(n: nat)
    ensures
        decimal(n).len() >= 1,
        forall|i: int| 0 <= i < decimal(n).len() ==> '0' <= #[trigger] decimal(n)[i] && decimal(n)[i] <= '9',
        decimal(n).len() > 1 ==> decimal(n)[0] != '0',
        digits_value(decimal(n)) == n,
    decreases n,
{
    lemma_digit_char(n % 10);
    let d = decimal(n);
    if n >= 10 {
        lemma_decimal_reads_back(n / 10);
        assert(d.drop_last() =~= decimal(n / 10));
        assert(d.last() == digit_char(n % 10));
        assert(digits_value(d) == digits_value(decimal(n / 10)) * 10 + (n % 10));
        assert(d[0] == decimal(n / 10)[0]);
        if n / 10 < 10 {
            lemma_digit_char(n / 10);
            assert(decimal(n / 10)[0] == digit_char(n / 10));
        } else {
            lemma_decimal_reads_back(n / 10 / 10);
            assert(decimal(n / 10).len() == decimal(n / 10 / 10).len() + 1);
        }
    } else {
        assert(d.drop_last() =~= Seq::<char>::empty());
        assert(digits_value(d.drop_last()) == 0);
        assert(d.last() == digit_char(n));
    }
}

/// The character of a decimal digit `d` (`0 <= d < 10`).
pub open spec fn digit_char(d: nat) -> char {
    ((48 + d) as u8) as char
}

/// The decimal representation of `n`, most significant digit first and
/// without leading zeros, as `Display` writes an unsigned integer.
pub open spec fn decimal(n: nat) -> Seq<char>
    decreases n,
{
    if n < 10 {
        seq![digit_char(n)]
    } else {
        decimal(n / 10).push(digit_char(n % 10))
    }
}

/// Appends one character to a string (std's `String::push`).
#[verifier::external_body]
fn string_push(s: &mut String, c: char)
    ensures
        final(s)@ == old(s)@.push(c),
{
    s.push(c)
}

/// Appends the decimal representation of `n` to `out`.
fn push_decimal(out: &mut String, n: u16)
    ensures
        final(out)@ == old(out)@ + decimal(n as nat),
    decreases n,
{
    if n >= 10 {
        push_decimal(out, n / 10);
    }
    let d: u8 = (n % 10) as u8;
    string_push(out, (48u8 + d) as char);
    proof {
        assert(old(out)@ + decimal(n as nat) =~= if n >= 10 {
            (old(out)@ + decimal((n / 10) as nat)).push(digit_char((n % 10) as nat))
        } else {
            old(out)@.push(digit_char(n as nat))
        });
    }
}

/// The text of an `Unrecoverable` error.
pub open spec fn unrecoverable_message(status: u16, url: Seq<char>) -> Seq<char> {
    "Unrecoverable error (HTTP "@ + decimal(status as nat) + "): "@ + url
}

/// The text of an `Unrecoverable` error is `Unrecoverable error (HTTP `, the
/// status in standard decimal (digits `'0'`..`'9'`, no leading zero, reading
/// back as the status), `): ` and the URL unchanged.
pub proof fn lemma_unrecoverable_message_parts(status: u16, url: Seq<char>)
    ensures
        exists|digits: Seq<char>|
            {
                &&& unrecoverable_message(status, url) == "Unrecoverable error (HTTP "@ + digits
                    + "): "@ + url
                &&& digits.len() >= 1
                &&& forall|i: int| 0 <= i < digits.len() ==> '0' <= #[trigger] digits[i] && digits[i] <= '9'
                &&& digits.len() > 1 ==> digits[0] != '0'
                &&& digits_value(digits) == status
            },
{
    lemma_decimal_reads_back(status as nat);
    let digits = decimal(status as nat);
    assert(unrecoverable_message(status, url) == "Unrecoverable error (HTTP "@ + digits + "): "@ + url);
}

/// The text of an error where this library fixes it: a custom message is
/// itself, an unrecoverable status reads `Unrecoverable error (HTTP <status>): <url>`.
/// The other kinds read as their own crates' `Display` writes them.
pub open spec fn known_message(e: DownloadError) -> Option<Seq<char>> {
    match e {
        DownloadError::Custom(s) => Some(s@),
        DownloadError::Unrecoverable(status, url) => Some(unrecoverable_message(status, url@)),
        _ => None,
    }
}

impl DownloadError {
    /// The human-readable text of the error (what the command line prints):
    /// for an error of another crate, the text its `Display` writes.
    pub fn message(&self) -> (text: String)
        ensures
            known_message(*self) matches Some(t) ==> text@ == t,
            *self matches DownloadError::Reqwest(e) ==> to_string_from_display_ensures(&e, text),
            *self matches DownloadError::ReqwestMiddleware(e) ==> to_string_from_display_ensures(&e, text),
            *self matches DownloadError::Tokio(e) ==> to_string_from_display_ensures(&e, text),
            *self matches DownloadError::Url(e) ==> to_string_from_display_ensures(&e, text),
            *self matches DownloadError::Indicatif(e) ==> to_string_from_display_ensures(&e, text),
            *self matches DownloadError::Join(e) ==> to_string_from_display_ensures(&e, text),
    {
        match self {
            DownloadError::Reqwest(err) => err.to_string(),
            DownloadError::ReqwestMiddleware(err) => err.to_string(),
            DownloadError::Tokio(err) => err.to_string(),
            DownloadError::Url(err) => err.to_string(),
            DownloadError::Indicatif(err) => err.to_string(),
            DownloadError::Join(err) => err.to_string(),
            DownloadError::Custom(err) => err.clone(),
            DownloadError::Unrecoverable(status, url) => {
                let mut text = String::from_str("Unrecoverable error (HTTP ");
                push_decimal(&mut text, *status);
                text.append("): ");
                text.append(url.as_str());
                text
            },
        }
    }
}

impl From<reqwest::Error> for DownloadError {
    fn from(err: reqwest::Error) -> (e: DownloadError) {
        DownloadError::Reqwest(err)
    }
}

impl FromSpecImpl<reqwest::Error> for DownloadError {
    open spec fn obeys_from_spec() -> bool {
        true
    }

    open spec fn from_spec(err: reqwest::Error) -> DownloadError {
        DownloadError::Reqwest(err)
    }
}

impl From<reqwest_middleware::Error> for DownloadError {
    fn from(err: reqwest_middleware::Error) -> (e: DownloadError) {
        DownloadError::ReqwestMiddleware(err)
    }
}

impl FromSpecImpl<reqwest_middleware::Error> for DownloadError {
    open spec fn obeys_from_spec() -> bool {
        true
    }

    open spec fn from_spec(err: reqwest_middleware::Error) -> DownloadError {
        DownloadError::ReqwestMiddleware(err)
    }
}

impl From<std::io::Error> for DownloadError {
    fn from(err: std::io::Error) -> (e: DownloadError) {
        DownloadError::Tokio(err)
    }
}

impl FromSpecImpl<std::io::Error> for DownloadError {
    open spec fn obeys_from_spec() -> bool {
        true
    }

    open spec fn from_spec(err: std::io::Error) -> DownloadError {
        DownloadError::Tokio(err)
    }
}

impl From<url::ParseError> for DownloadError {
    fn from(err: url::ParseError) -> (e: DownloadError) {
        DownloadError::Url(err)
    }
}

impl FromSpecImpl<url::ParseError> for DownloadError {
    open spec fn obeys_from_spec() -> bool {
        true
    }

    open spec fn from_spec(err: url::ParseError) -> DownloadError {
        DownloadError::Url(err)
    }
}

impl From<indicatif::style::TemplateError> for DownloadError {
    fn from(err: indicatif::style::TemplateError) -> (e: DownloadError) {
        DownloadError::Indicatif(err)
    }
}

impl FromSpecImpl<indicatif::style::TemplateError> for DownloadError {
    open spec fn obeys_from_spec() -> bool {
        true
    }

    open spec fn from_spec(err: indicatif::style::TemplateError) -> DownloadError {
        DownloadError::Indicatif(err)
    }
}

impl From<tokio::task::JoinError> for DownloadError {
    fn from(err: tokio::task::JoinError) -> (e: DownloadError) {
        DownloadError::Join(err)
    }
}

impl FromSpecImpl<tokio::task::JoinError> for DownloadError {
    open spec fn obeys_from_spec() -> bool {
        true
    }

    open spec fn from_spec(err: tokio::task::JoinError) -> DownloadError {
        DownloadError::Join(err)
    }
}

impl From<String> for DownloadError {
    fn from(err: String) -> (e: DownloadError) {
        DownloadError::Custom(err)
    }
}

impl FromSpecImpl<String> for DownloadError {
    open spec fn obeys_from_spec() -> bool {
        true
    }

    open spec fn from_spec(err: String) -> DownloadError {
        DownloadError::Custom(err)
    }
}

/// An error made from a message reads as that message: `message` gives back
/// exactly the string that `From<String>` was given.
pub proof fn lemma_custom_message_round_trip(s: String)
    ensures
        known_message(<DownloadError as FromSpec<String>>::from_spec(s)) == Some(s@),
{
}

/// An error converted from another error or from a message is never
/// unrecoverable: only an HTTP status of 401, 403 or 404, reported as
/// `Unrecoverable`, abandons a download.
pub proof fn lemma_converted_errors_are_recoverable(
    r: reqwest::Error,
    m: reqwest_middleware::Error,
    io: std::io::Error,
    u: url::ParseError,
    t: indicatif::style::TemplateError,
    j: tokio::task::JoinError,
    s: String,
)
    ensures
        !is_unrecoverable_error(<DownloadError as FromSpec<reqwest::Error>>::from_spec(r)),
        !is_unrecoverable_error(<DownloadError as FromSpec<reqwest_middleware::Error>>::from_spec(m)),
        !is_unrecoverable_error(<DownloadError as FromSpec<std::io::Error>>::from_spec(io)),
        !is_unrecoverable_error(<DownloadError as FromSpec<url::ParseError>>::from_spec(u)),
        !is_unrecoverable_error(<DownloadError as FromSpec<indicatif::style::TemplateError>>::from_spec(t)),
        !is_unrecoverable_error(<DownloadError as FromSpec<tokio::task::JoinError>>::from_spec(j)),
        !is_unrecoverable_error(<DownloadError as FromSpec<String>>::from_spec(s)),
{
}

} // verus!
