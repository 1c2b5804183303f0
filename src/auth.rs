//! The token that authenticates every request to the registry.
use vstd::prelude::*;

verus! {

#[verifier::external_type_specification]
#[verifier::external_body]
pub struct ExInvalidHeaderValue(http::header::InvalidHeaderValue);

/// A character that may stand in an HTTP header value: a tab, or any
/// character from the space on but DEL. A character beyond ASCII is encoded
/// as bytes of 128 or more, which are all allowed.
pub open spec fn header_char_ok(c: char) -> bool {
    c == '\t' || (c as u32 >= 32 && c as u32 != 127)
}

/// Every character of `s` may stand in a header value.
pub open spec fn header_text_ok(s: Seq<char>) -> bool {
    forall|i: int| 0 <= i < s.len() ==> header_char_ok(#[trigger] s[i])
}

/// Relies on http::HeaderValue::from_str: it accepts a string exactly when
/// each of its bytes is a tab, or is 32 or more and not 127.
#[verifier::external_body]
fn check_header_value(s: &str) -> (r: Result<(), http::header::InvalidHeaderValue>)
    ensures
        r is Ok <==> header_text_ok(s@),
{
    http::HeaderValue::from_str(s).map(|_| ())
}

/// Why the authorization header could not be formed.
#[derive(Debug)]
pub enum AuthError {
    /// The token holds a character that no header value may hold.
    HeaderValue { source: http::header::InvalidHeaderValue },
}

/// The value of the `Authorization` header that carries `token`.
pub open spec fn authorization_text(token: Seq<char>) -> Seq<char> {
    "token "@ + token
}

/// The credentials attached to each request.
#[derive(Debug, Clone)]
pub struct Auth {
    pub token: String,
}

impl Auth {
    /// The `Authorization` header's value, `token {token}`; an error when the
    /// token cannot stand in a header.
    pub fn header_value(&self) -> (r: Result<String, AuthError>)
        ensures
            r is Ok <==> header_text_ok(self.token@),
            r matches Ok(v) ==> v@ == authorization_text(self.token@),
    {
        let mut value = String::from_str("token ");
        value.append(self.token.as_str());
        proof {
            reveal_strlit("token ");
            let p = "token "@;
            assert(header_text_ok(p));
            assert(value@ == p + self.token@);
            assert(header_text_ok(value@) ==> header_text_ok(self.token@)) by {
                if header_text_ok(value@) {
                    assert forall|i: int| 0 <= i < self.token@.len() implies header_char_ok(
                        #[trigger] self.token@[i],
                    ) by {
                        assert(value@[p.len() + i] == self.token@[i]);
                    }
                }
            }
        }
        match check_header_value(value.as_str()) {
            Ok(()) => Ok(value),
            Err(e) => Err(AuthError::HeaderValue { source: e }),
        }
    }
}

} // verus!
