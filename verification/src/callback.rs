//! Reading the one request that the loopback listener receives.

use vstd::prelude::*;
use vstd::string::StringExecFns;
use vstd::string::StrSliceExecFns;
use vstd::string::StringSliceAdditionalSpecFns;
use crate::config::option_text;
use crate::error::{AuthError, AuthErrorView};
use crate::provider::{query_pairs, url_parse, url_query_pairs};
use crate::text::{
    chars_of, find_param, first_value, pairs_view, skip_spaces, skip_word, spaces_end, word_end,
};

verus! {

/// What a redirect carries: the authorization code and, if the provider
/// echoed it, the state value.
#[derive(Debug, PartialEq, Eq)]
pub struct Callback {
    pub code: String,
    pub state: Option<String>,
}

/// The mathematical value of a `Callback`.
pub struct CallbackView {
    pub code: Seq<char>,
    pub state: Option<Seq<char>>,
}

impl View for Callback {
    type V = CallbackView;

    open spec fn view(&self) -> CallbackView {
        CallbackView { code: self.code@, state: option_text(self.state) }
    }
}

/// Where the second whitespace-separated word of `line` starts; the length of
/// `line` if it has fewer than two words.
pub open spec fn target_start(line: Seq<char>) -> int {
    skip_spaces(line, skip_word(line, skip_spaces(line, 0)))
}

/// The request target of an HTTP request line: its second
/// whitespace-separated word, if it has one.
pub open spec fn request_target(line: Seq<char>) -> Option<Seq<char>> {
    let start = target_start(line);
    if start < line.len() {
        Some(line.subrange(start, skip_word(line, start)))
    } else {
        None
    }
}

/// The request target of an HTTP request line such as
/// `GET /callback?code=... HTTP/1.1`: its second whitespace-separated word.
pub fn request_target_of(request_line: &str) -> (r: Option<String>)
    ensures
        option_text(r) == request_target(request_line@),
{
    let chars = chars_of(request_line);
    let method_start = spaces_end(&chars, 0);
    let method_end = word_end(&chars, method_start);
    let start = spaces_end(&chars, method_end);
    if start < chars.len() {
        let end = word_end(&chars, start);
        Some(String::from_str(request_line.substring_char(start, end)))
    } else {
        None
    }
}

/// The HTTP response that carries `page` to the browser: a success status,
/// the page's media type, its length in bytes, and the page itself.
pub open spec fn confirmation_response(page: Seq<char>) -> Seq<char> {
    "HTTP/1.1 200 OK\r\nContent-Type: text/html; charset=utf-8\r\nContent-Length: "@
        + crate::text::decimal_text(vstd::utf8::encode_utf8(page).len()) + "\r\n\r\n"@ + page
}

/// The page that confirms an authorization with `platform`.
pub open spec fn confirmation_page(platform: crate::cli::Platform) -> Seq<char> {
    match platform {
        crate::cli::Platform::Mixcloud => crate::platforms::mixcloud::CONFIRMATION_PAGE@,
        crate::cli::Platform::Soundcloud => crate::platforms::soundcloud::CONFIRMATION_PAGE@,
    }
}

/// The HTTP response to write to the browser once the redirect from
/// `platform` has arrived.
pub fn confirmation_response_for(platform: crate::cli::Platform) -> (response: String)
    ensures
        response@ == confirmation_response(confirmation_page(platform)),
{
    let page: &str = match platform {
        crate::cli::Platform::Mixcloud => crate::platforms::mixcloud::CONFIRMATION_PAGE,
        crate::cli::Platform::Soundcloud => crate::platforms::soundcloud::CONFIRMATION_PAGE,
    };
    let mut response = String::from_str(
        "HTTP/1.1 200 OK\r\nContent-Type: text/html; charset=utf-8\r\nContent-Length: ",
    );
    let length: usize = page.as_bytes().len();
    response.append(crate::text::decimal(length as u128).as_str());
    response.append("\r\n\r\n");
    response.append(page);
    assert(response@ =~= confirmation_response(confirmation_page(platform)));
    response
}

/// What a list of query pairs says of a redirect: the value of the first
/// `code` pair is the authorization code, that of the first `state` pair the
/// echoed state. Without a code the redirect is of no use.
pub open spec fn callback_from_pairs(pairs: Seq<(Seq<char>, Seq<char>)>) -> Result<
    CallbackView,
    AuthErrorView,
> {
    match first_value(pairs, "code"@) {
        Some(code) => Ok(CallbackView { code, state: first_value(pairs, "state"@) }),
        None => Err(AuthErrorView::MissingAuthorizationCode),
    }
}

/// What a request line says of a redirect. A line without a request target,
/// a target that does not form a URL behind `http://localhost`, and a query
/// string without a code all count as a missing authorization code.
pub open spec fn callback_of(request_line: Seq<char>) -> Result<CallbackView, AuthErrorView> {
    match request_target(request_line) {
        Some(target) => match url_parse("http://localhost"@ + target) {
            Some(url) => callback_from_pairs(url_query_pairs(url)),
            None => Err(AuthErrorView::MissingAuthorizationCode),
        },
        None => Err(AuthErrorView::MissingAuthorizationCode),
    }
}

/// Whatever is wrong with a redirect, it is reported as a missing
/// authorization code; and a redirect that is accepted carries the first code
/// of its query string.
pub proof fn lemma_callback_errors(request_line: Seq<char>)
    ensures
        callback_of(request_line) is Err ==> callback_of(request_line) == Err::<
            CallbackView,
            AuthErrorView,
        >(AuthErrorView::MissingAuthorizationCode),
        request_target(request_line) is None ==> callback_of(request_line) is Err,
{
}

/// The value of a parsing result.
pub open spec fn callback_result_view(r: Result<Callback, AuthError>) -> Result<
    CallbackView,
    AuthErrorView,
> {
    match r {
        Ok(callback) => Ok(callback@),
        Err(e) => Err(e@),
    }
}

/// Picks the authorization code and the echoed state out of the query pairs
/// of a redirect.
pub fn read_callback_pairs(pairs: &Vec<(String, String)>) -> (r: Result<Callback, AuthError>)
    ensures
        callback_result_view(r) == callback_from_pairs(pairs_view(pairs@)),
{
    match find_param(pairs, "code") {
        Some(code) => Ok(Callback { code, state: find_param(pairs, "state") }),
        None => Err(AuthError::MissingAuthorizationCode),
    }
}

/// Reads the authorization code and the echoed state from the request line
/// of the redirect.
pub fn extract_code_from_request(request_line: &str) -> (r: Result<Callback, AuthError>)
    ensures
        callback_result_view(r) == callback_of(request_line@),
{
    match request_target_of(request_line) {
        Some(target) => {
            let mut address = String::from_str("http://localhost");
            address.append(target.as_str());
            match url::Url::parse(address.as_str()) {
                Ok(url) => {
                    let pairs = query_pairs(&url);
                    read_callback_pairs(&pairs)
                },
                Err(_) => Err(AuthError::MissingAuthorizationCode),
            }
        },
        None => Err(AuthError::MissingAuthorizationCode),
    }
}

} // verus!
