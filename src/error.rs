//! The library's error type and its user-facing descriptions.

use crate::text::{int_digits, push_char, push_i64, push_str};
use vstd::prelude::*;

verus! {

/// An error of a request, a decoding, or a rule of the library.
#[derive(Clone, Debug, PartialEq, Eq)]
pub enum BBDDError {
    /// The HTTP request failed; the text describes why.
    HttpRequestError(String),
    /// A response could not be decoded; the text describes why.
    JsonParseError(String),
    /// The service answered with an error code.
    ApiError { code: i32, message: String },
    /// An argument was not acceptable.
    ParamError(String),
    /// Something was not in the state it should be in.
    StateError(String),
}

pub type BBDDResult<T> = Result<T, BBDDError>;

/// The message shown to the user for an error.
pub open spec fn error_message(e: BBDDError) -> Seq<char> {
    match e {
        BBDDError::HttpRequestError(t) => "网络请求失败: "@ + t@,
        BBDDError::JsonParseError(t) => "数据解析失败: "@ + t@,
        BBDDError::ApiError { code, message } => if message@.len() == 0 {
            "接口请求失败: 错误代码 "@ + int_digits(code as int)
        } else {
            "接口请求失败: "@ + message@ + seq![' ', '('] + int_digits(code as int) + seq![')']
        },
        BBDDError::ParamError(t) => t@,
        BBDDError::StateError(t) => t@,
    }
}

/// The message shown to the user for an error.
pub fn format_bbdd_error(e: &BBDDError) -> (r: String)
    ensures
        r@ == error_message(*e),
{
    let mut r = String::new();
    match e {
        BBDDError::HttpRequestError(t) => {
            push_str(&mut r, "网络请求失败: ");
            push_str(&mut r, t.as_str());
        },
        BBDDError::JsonParseError(t) => {
            push_str(&mut r, "数据解析失败: ");
            push_str(&mut r, t.as_str());
        },
        BBDDError::ApiError { code, message } => {
            if message.as_str().is_empty() {
                push_str(&mut r, "接口请求失败: 错误代码 ");
                push_i64(&mut r, *code as i64);
            } else {
                push_str(&mut r, "接口请求失败: ");
                push_str(&mut r, message.as_str());
                push_char(&mut r, ' ');
                push_char(&mut r, '(');
                push_i64(&mut r, *code as i64);
                push_char(&mut r, ')');
                proof {
                    assert(r@ =~= error_message(*e));
                }
            }
        },
        BBDDError::ParamError(t) => {
            push_str(&mut r, t.as_str());
        },
        BBDDError::StateError(t) => {
            push_str(&mut r, t.as_str());
        },
    }
    r
}

/// The result of a service envelope: its code 0 means success, any other
/// code is an `ApiError` carrying that code and the envelope's message.
pub fn check_envelope(code: i32, message: String) -> (r: BBDDResult<()>)
    ensures
        code == 0 ==> r == Ok::<(), BBDDError>(()),
        code != 0 ==> r == Err::<(), BBDDError>(BBDDError::ApiError { code, message }),
{
    if code != 0 {
        Err(BBDDError::ApiError { code, message })
    } else {
        Ok(())
    }
}

} // verus!
