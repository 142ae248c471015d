//! What the Lua bindings decide: which arguments they accept, what text they
//! hand to Lua, and how many values each method answers.
use vstd::prelude::*;
use vstd::string::*;
use vstd::utf8::{decode_utf8, valid_utf8};
use crate::errors::ArgumentError;

verus! {

/// The Lua interpreter state, opaque to Rust: the bindings only hold pointers to it.
pub struct lua_State {
    _private: [u8; 0],
}

/// An integer argument, accepted where it lies in `1..=255`.
pub fn get_u8_or_error(argument_num: i32, n: i64) -> (r: Result<u8, ArgumentError>)
    ensures
        r == (if 1 <= n <= 255 {
            Ok(n as u8)
        } else {
            Err(ArgumentError::OutOfRange { argument: argument_num, value: n })
        }),
{
    if n < 1 || n > 255 {
        return Err(ArgumentError::OutOfRange { argument: argument_num, value: n });
    }
    Ok(n as u8)
}

/// The bytes read as UTF-8 text, where they are valid UTF-8 (`std::str::from_utf8`).
#[verifier::external_body]
fn str_from_utf8(bytes: &[u8]) -> (text: Option<&str>)
    ensures
        text is Some <==> valid_utf8(bytes@),
        text matches Some(t) ==> t@ == decode_utf8(bytes@),
{
    std::str::from_utf8(bytes).ok()
}

/// A string argument: `bytes` are those of the Lua string, `None` where the
/// argument is not a string. Accepted where they are valid UTF-8.
pub fn get_string_or_error(argument_num: i32, bytes: Option<&[u8]>) -> (r: Result<String, ArgumentError>)
    ensures
        match bytes {
            None => r == Err::<String, ArgumentError>(ArgumentError::NotAString { argument: argument_num }),
            Some(b) => if valid_utf8(b@) {
                r matches Ok(s) && s@ == decode_utf8(b@)
            } else {
                r == Err::<String, ArgumentError>(ArgumentError::InvalidUtf8 { argument: argument_num })
            },
        },
{
    match bytes {
        None => Err(ArgumentError::NotAString { argument: argument_num }),
        Some(b) => match str_from_utf8(b) {
            Some(text) => Ok(text.to_owned()),
            None => Err(ArgumentError::InvalidUtf8 { argument: argument_num }),
        },
    }
}

/// The text that Lua receives for `text`: `text` itself, or `fallback` where
/// `text` holds a NUL character and so cannot pass as a C string.
pub open spec fn c_text(text: Seq<char>, fallback: Seq<char>) -> Seq<char> {
    if text.contains('\0') {
        fallback
    } else {
        text
    }
}

/// `text`, or `fallback` where `text` holds a NUL character.
pub fn c_compatible_text(text: &str, fallback: &str) -> (r: String)
    requires
        !fallback@.contains('\0'),
    ensures
        r@ == c_text(text@, fallback@),
        !r@.contains('\0'),
{
    let n = text.unicode_len();
    let mut i: usize = 0;
    while i < n
        invariant
            n == text@.len(),
            i <= n,
            !fallback@.contains('\0'),
            forall|j: int| 0 <= j < i ==> text@[j] != '\0',
        decreases n - i,
    {
        if text.get_char(i) == '\0' {
            assert(text@[i as int] == '\0');
            return fallback.to_owned();
        }
        i += 1;
    }
    text.to_owned()
}

/// What a Lua method answers on failure: `nils` nil values, then `text`; `values`
/// is their number.
pub struct LuaErrorReply {
    pub nils: i32,
    pub text: String,
    pub values: i32,
}

/// The reply to Lua for a failure reported by `message`, after `nil_count` nils.
pub fn lua_error_reply(nil_count: i32, message: &str) -> (reply: LuaErrorReply)
    requires
        0 <= nil_count < i32::MAX,
    ensures
        reply.nils == nil_count,
        reply.values == nil_count + 1,
        reply.text@ == c_text(message@, "Can't even make an error message"@),
{
    let fallback = "Can't even make an error message";
    proof {
        reveal_strlit("Can't even make an error message");
    }
    let text = c_compatible_text(message, fallback);
    LuaErrorReply { nils: nil_count, text, values: nil_count + 1 }
}

/// The methods that the Lua module offers.
#[derive(Clone, Copy, Debug, PartialEq, Eq, Structural)]
pub enum LuaMethod {
    /// `new(name, instrument_id)`: userdata, unique id and nil; or nil, nil and the error.
    New,
    /// `obj:rename(new_name)`: nothing; or nil and the error.
    Rename,
    /// `obj:get_name()`: the name; or nil and the error.
    GetName,
    /// `obj:get_unique_id()`: the unique id; or nil and the error.
    GetUniqueId,
}

impl LuaMethod {
    /// The nils that stand before the error text when the method fails.
    pub fn error_nils(self) -> (n: i32)
        ensures
            n == (if self == LuaMethod::New {
                2i32
            } else {
                1i32
            }),
    {
        match self {
            LuaMethod::New => 2,
            _ => 1,
        }
    }

    /// The number of values the method answers when it succeeds.
    pub fn success_values(self) -> (n: i32)
        ensures
            n == match self {
                LuaMethod::New => 3i32,
                LuaMethod::Rename => 0i32,
                LuaMethod::GetName => 1i32,
                LuaMethod::GetUniqueId => 1i32,
            },
    {
        match self {
            LuaMethod::New => 3,
            LuaMethod::Rename => 0,
            LuaMethod::GetName => 1,
            LuaMethod::GetUniqueId => 1,
        }
    }
}

} // verus!
