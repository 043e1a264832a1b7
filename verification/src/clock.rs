//! Points in time, as whole seconds since the Unix epoch plus nanoseconds.

use vstd::prelude::*;

verus! {

/// An instant on the UTC time line. `nanosecond` is below one billion for
/// every instant the library produces.
#[derive(Clone, Copy, Debug, PartialEq, Eq, Structural)]
pub struct UtcInstant {
    pub unix_seconds: i64,
    pub nanosecond: u32,
}

/// `a` lies strictly after `b`.
pub open spec fn is_after(a: UtcInstant, b: UtcInstant) -> bool {
    a.unix_seconds > b.unix_seconds || (a.unix_seconds == b.unix_seconds && a.nanosecond
        > b.nanosecond)
}

impl UtcInstant {
    /// Whether `self` lies strictly after `other`.
    pub fn is_after(&self, other: &UtcInstant) -> (r: bool)
        ensures
            r == is_after(*self, *other),
    {
        self.unix_seconds > other.unix_seconds || (self.unix_seconds == other.unix_seconds
            && self.nanosecond > other.nanosecond)
    }
}

/// The instant that `time`'s RFC 3339 parser reads from `text`, as Unix
/// seconds and nanoseconds, or `None` where it refuses the text.
pub uninterp spec fn rfc3339_instant(text: Seq<char>) -> Option<(i64, u32)>;

/// Parse an RFC 3339 timestamp with `time::OffsetDateTime::parse` and the
/// `Rfc3339` description. The contract claims only that the answer is the
/// parser's (named `rfc3339_instant`), read through `unix_timestamp` and
/// `nanosecond`, and that the nanosecond field is below one billion, as
/// `time` documents.
#[verifier::external_body]
pub(crate) fn parse_rfc3339(text: &str) -> (r: Option<UtcInstant>)
    ensures
        r is Some <==> rfc3339_instant(text@) is Some,
        r matches Some(t) ==> rfc3339_instant(text@) == Some((t.unix_seconds, t.nanosecond)),
        r matches Some(t) ==> t.nanosecond < 1_000_000_000,
{
    match time::OffsetDateTime::parse(text, &time::format_description::well_known::Rfc3339) {
        Ok(t) => Some(UtcInstant { unix_seconds: t.unix_timestamp(), nanosecond: t.nanosecond() }),
        Err(_) => None,
    }
}

} // verus!
