//! A transient bearer credential, accepted only in a bounded, printable form.

use vstd::prelude::*;

use crate::error::PipelineError;
use crate::text::{byte_len, chars_of, control, is_control, is_white_space, utf8_len, white_space};

verus! {

/// Largest bearer accepted, in bytes.
pub const MAX_BEARER_BYTES: usize = 16 * 1024;

/// What a bearer must look like to be handed to the authority: non-empty, at
/// most 16 KiB of UTF-8, and free of whitespace and control characters.
pub open spec fn bearer_acceptable(s: Seq<char>) -> bool {
    &&& s.len() > 0
    &&& utf8_len(s) <= MAX_BEARER_BYTES
    &&& forall|i: int| 0 <= i < s.len() ==> !is_white_space(#[trigger] s[i]) && !is_control(s[i])
}

/// A bearer credential that has passed the shape checks; it is only exposed
/// to the verification step.
#[derive(Clone, Debug, PartialEq, Eq)]
pub struct SecretBearer(String);

impl View for SecretBearer {
    type V = Seq<char>;

    closed spec fn view(&self) -> Seq<char> {
        self.0@
    }
}

impl SecretBearer {
    /// Accept a bounded bearer for immediate verification.
    ///
    /// Refused with `InvalidCredential` when the value is empty, longer than
    /// 16 KiB, or holds whitespace or control characters.
    pub fn new(value: String) -> (r: Result<Self, PipelineError>)
        ensures
            r is Ok <==> bearer_acceptable(value@),
            r matches Ok(b) ==> b@ == value@,
            r matches Err(e) ==> e == PipelineError::InvalidCredential,
    {
        let n = byte_len(value.as_str());
        if n == 0 || n > MAX_BEARER_BYTES {
            proof {
                if n == 0 && value@.len() > 0 {
                    vstd::utf8::encode_utf8_first_scalar(value@);
                }
            }
            return Err(PipelineError::InvalidCredential);
        }
        let cs = chars_of(value.as_str());
        let len = cs.len();
        for i in 0..len
            invariant
                len == cs@.len(),
                cs@ == value@,
                forall|j: int| 0 <= j < i ==> !is_white_space(#[trigger] cs@[j]) && !is_control(cs@[j]),
        {
            if white_space(cs[i]) || control(cs[i]) {
                return Err(PipelineError::InvalidCredential);
            }
        }
        proof {
            if value@.len() == 0 {
                assert(value@ =~= Seq::<char>::empty());
            }
        }
        Ok(SecretBearer(value))
    }

    /// The bearer text, for the verification call only.
    pub fn expose_for_verification(&self) -> (text: &str)
        ensures
            text@ == self@,
    {
        self.0.as_str()
    }
}


/// A bearer is refused exactly when it is empty, longer than 16 KiB of
/// UTF-8, or holds a character that is whitespace or a control character;
/// everything else is accepted.
pub proof fn bearer_refused_only_for_documented_reasons(s: Seq<char>)
    ensures
        !bearer_acceptable(s) <==> {
            ||| s.len() == 0
            ||| utf8_len(s) > 16 * 1024
            ||| exists|i: int| 0 <= i < s.len() && (is_white_space(s[i]) || is_control(s[i]))
        },
{
}

/// Tokens of printable ASCII (`!` to `~`: letters, digits, `.`, `-`, `_`,
/// `+`, `/`, `=` and the rest), such as JWTs, are accepted whenever they
/// hold 1 to 16384 characters.
pub proof fn printable_ascii_bearers_accepted(s: Seq<char>)
    requires
        0 < s.len() <= 16 * 1024,
        forall|i: int| 0 <= i < s.len() ==> '!' <= #[trigger] s[i] && s[i] <= '~',
    ensures
        bearer_acceptable(s),
{
    assert(vstd::utf8::is_ascii_chars(s));
    vstd::utf8::is_ascii_chars_encode_utf8(s);
    assert forall|i: int| 0 <= i < s.len() implies !is_white_space(#[trigger] s[i]) && !is_control(
        s[i],
    ) by {
        crate::text::whitespace_and_controls_are_few(s[i]);
    }
}

} // verus!
