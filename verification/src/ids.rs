//! Identifiers: 128-bit UUID values wrapped in one newtype per kind of
//! entity, rendered and parsed in the standard hyphenated text form.

use vstd::prelude::*;

verus! {

/// The lower-case hexadecimal character for the nibble `n` (taken modulo
/// the sixteen digits; every `n` above fifteen renders as `f`).
pub open spec fn hex_char(n: u128) -> char {
    if n == 0 { '0' } else if n == 1 { '1' } else if n == 2 { '2' } else if n == 3 { '3' }
    else if n == 4 { '4' } else if n == 5 { '5' } else if n == 6 { '6' } else if n == 7 { '7' }
    else if n == 8 { '8' } else if n == 9 { '9' } else if n == 10 { 'a' } else if n == 11 { 'b' }
    else if n == 12 { 'c' } else if n == 13 { 'd' } else if n == 14 { 'e' } else { 'f' }
}

/// The `k`-th hexadecimal digit of `v`, counting from the most significant.
pub open spec fn nibble(v: u128, k: int) -> u128 {
    (v >> ((4 * (31 - k)) as u128)) & 15
}

/// Whether position `j` of the hyphenated form holds a hyphen.
pub open spec fn is_hyphen_pos(j: int) -> bool {
    j == 8 || j == 13 || j == 18 || j == 23
}

/// The number of hyphens before position `j` of the hyphenated form.
pub open spec fn hyphens_before(j: int) -> int {
    if j <= 8 { 0 } else if j <= 13 { 1 } else if j <= 18 { 2 } else if j <= 23 { 3 } else { 4 }
}

/// The hyphenated text form of a UUID: 32 lower-case hexadecimal digits
/// grouped 8-4-4-4-12 by hyphens, 36 characters in all.
pub open spec fn uuid_text(v: u128) -> Seq<char> {
    Seq::new(36, |j: int| if is_hyphen_pos(j) { '-' } else { hex_char(nibble(v, j - hyphens_before(j))) })
}

/// Whether `c` is a lower-case hexadecimal digit.
pub open spec fn is_lower_hex(c: char) -> bool {
    ('0' <= c && c <= '9') || ('a' <= c && c <= 'f')
}

/// What `uuid::Uuid::parse_str` gives for a text: the UUID value, or the
/// text of the error when the text is not a UUID in one of the forms the
/// crate accepts.
pub uninterp spec fn uuid_parse_outcome(s: Seq<char>) -> Result<u128, Seq<char>>;

/// The UUID value a text holds, if it is one.
pub open spec fn uuid_parse(s: Seq<char>) -> Option<u128> {
    match uuid_parse_outcome(s) {
        Ok(v) => Some(v),
        Err(_) => None,
    }
}

/// `uuid::Uuid::new_v4`: a fresh random UUID, as its 128-bit value.
///
/// The value is random; the contract states only the version (4) and
/// variant (RFC 4122) bits that the crate's source sets on every result.
#[verifier::external_body]
pub(crate) fn random_uuid_v4() -> (v: u128)
    ensures
        (v >> 76u128) & 15 == 4,
        (v >> 62u128) & 3 == 2,
{
    uuid::Uuid::new_v4().as_u128()
}

/// The `Display` form of `uuid::Uuid`: the hyphenated lower-case text.
///
/// The contract claims the exact text, and that `uuid::Uuid::parse_str`
/// reads that text back as the same value.
#[verifier::external_body]
pub(crate) fn uuid_to_text(v: u128) -> (s: String)
    ensures
        s@ == uuid_text(v),
        uuid_parse(s@) == Some(v),
{
    uuid::Uuid::from_u128(v).to_string()
}

/// `uuid::Uuid::parse_str`: the value of a UUID text, or the `Display`
/// text of the error.
#[verifier::external_body]
pub(crate) fn uuid_from_text(s: &str) -> (r: Result<u128, String>)
    ensures
        match uuid_parse_outcome(s@) {
            Ok(v) => r == Ok::<u128, String>(v),
            Err(m) => r matches Err(e) && e@ == m,
        },
{
    match uuid::Uuid::parse_str(s) {
        Ok(u) => Ok(u.as_u128()),
        Err(e) => Err(e.to_string()),
    }
}

/// The hyphenated form is 36 characters long and holds only lower-case
/// hexadecimal digits and hyphens (hyphens exactly at positions 8, 13, 18
/// and 23).
pub proof fn lemma_uuid_text_shape(v: u128)
    ensures
        uuid_text(v).len() == 36,
        forall|j: int| 0 <= j < 36 ==> (#[trigger] uuid_text(v)[j] == '-') == is_hyphen_pos(j),
        forall|j: int| 0 <= j < 36 && !is_hyphen_pos(j) ==> is_lower_hex(#[trigger] uuid_text(v)[j]),
{
}

/// The value `v` shifted right by `t` hexadecimal digits: its top
/// `32 - t` digits.
pub open spec fn top_digits(v: u128, t: int) -> u128 {
    v >> ((4 * t) as u128)
}

/// One hexadecimal digit less at the bottom: the top digits above `t`
/// followed by digit `t`.
proof fn lemma_top_digits_step(x: u128, t: int)
    requires
        0 <= t < 31,
    ensures
        top_digits(x, t) == top_digits(x, t + 1) * 16 + (top_digits(x, t) & 15),
        top_digits(x, t) & 15 < 16,
{
    let s = (4 * t) as u128;
    assert((x >> s) == (x >> (s + 4)) * 16 + ((x >> s) & 15) && (x >> s) & 15 < 16) by (bit_vector)
        requires
            s <= 120,
    ;
    assert(((4 * (t + 1)) as u128) == s + 4);
}

/// The topmost digit is all that is left after shifting by 31 digits, and
/// nothing is shifted away by zero digits.
proof fn lemma_top_digits_ends(x: u128)
    ensures
        top_digits(x, 31) == top_digits(x, 31) & 15,
        top_digits(x, 0) == x,
{
    assert((x >> 124u128) == (x >> 124u128) & 15 && x >> 0u128 == x) by (bit_vector);
}

/// Larger top digits make a larger value.
proof fn lemma_top_digits_order(a: u128, b: u128, t: int)
    requires
        0 <= t <= 31,
        top_digits(a, t) > top_digits(b, t),
    ensures
        a > b,
    decreases t,
{
    if t == 0 {
        lemma_top_digits_ends(a);
        lemma_top_digits_ends(b);
    } else {
        lemma_top_digits_step(a, t - 1);
        lemma_top_digits_step(b, t - 1);
        lemma_top_digits_order(a, b, t - 1);
    }
}

/// Searching down from digit `t` (above which `a` and `b` agree), the
/// first digit where they differ: `a`'s is the smaller one.
proof fn lemma_first_digit_difference(a: u128, b: u128, t: int) -> (t0: int)
    requires
        a < b,
        0 <= t <= 31,
        t == 31 || top_digits(a, t + 1) == top_digits(b, t + 1),
    ensures
        0 <= t0 <= t,
        forall|t1: int| t0 < t1 <= t ==> (#[trigger] top_digits(a, t1) & 15) == top_digits(b, t1) & 15,
        top_digits(a, t0) & 15 < top_digits(b, t0) & 15,
    decreases t,
{
    if t == 31 {
        lemma_top_digits_ends(a);
        lemma_top_digits_ends(b);
    } else {
        lemma_top_digits_step(a, t);
        lemma_top_digits_step(b, t);
    }
    let na = top_digits(a, t) & 15;
    let nb = top_digits(b, t) & 15;
    if na < nb {
        t
    } else if na > nb {
        lemma_top_digits_order(a, b, t);
        t
    } else {
        if t == 0 {
            lemma_top_digits_ends(a);
            lemma_top_digits_ends(b);
            t
        } else {
            lemma_first_digit_difference(a, b, t - 1)
        }
    }
}

/// The digit of `v` at hexadecimal position `k` (from the most
/// significant) is below sixteen.
proof fn lemma_nibble_bound(v: u128, k: int)
    requires
        0 <= k < 32,
    ensures
        nibble(v, k) < 16,
{
    let s = (4 * (31 - k)) as u128;
    assert((v >> s) & 15 < 16) by (bit_vector);
}

/// Where hexadecimal digit `k` stands in the hyphenated form.
pub open spec fn digit_position(k: int) -> int {
    if k < 8 { k } else if k < 12 { k + 1 } else if k < 16 { k + 2 } else if k < 20 { k + 3 } else { k + 4 }
}

/// The character of a digit below sixteen, by its code point.
proof fn lemma_hex_char_code(n: u128)
    requires
        n < 16,
    ensures
        (hex_char(n) as u32) == if n < 10 { 48 + n } else { 87 + n },
{
}

/// Smaller values have smaller hyphenated forms, position by position: the
/// forms agree up to the first digit where the values differ, and there the
/// smaller value has the smaller character.
pub proof fn lemma_uuid_text_order(a: u128, b: u128) -> (j: int)
    requires
        a < b,
    ensures
        0 <= j < 36,
        forall|i: int| 0 <= i < j ==> #[trigger] uuid_text(a)[i] == uuid_text(b)[i],
        (uuid_text(a)[j] as u32) < (uuid_text(b)[j] as u32),
{
    let t0 = lemma_first_digit_difference(a, b, 31);
    let k0 = 31 - t0;
    let j = digit_position(k0);
    assert forall|k: int| 0 <= k < k0 implies #[trigger] nibble(a, k) == nibble(b, k) by {
        assert(top_digits(a, 31 - k) & 15 == top_digits(b, 31 - k) & 15);
    }
    assert(nibble(a, k0) < nibble(b, k0));
    lemma_nibble_bound(a, k0);
    lemma_nibble_bound(b, k0);
    lemma_hex_char_code(nibble(a, k0));
    lemma_hex_char_code(nibble(b, k0));
    assert forall|i: int| 0 <= i < j implies #[trigger] uuid_text(a)[i] == uuid_text(b)[i] by {
        if !is_hyphen_pos(i) {
            assert(i - hyphens_before(i) < k0);
            assert(nibble(a, i - hyphens_before(i)) == nibble(b, i - hyphens_before(i)));
        }
    }
    assert(!is_hyphen_pos(j) && j - hyphens_before(j) == k0);
    j
}

/// Error returned when a text is not a UUID: what the UUID parser said.
#[derive(Debug, PartialEq, Eq)]
pub struct ParseIdError {
    pub message: String,
}

} // verus!

verus! {

/// Unique identifier for a registered agent.
#[derive(Clone, Copy, Debug, PartialEq, Eq, Structural, Hash)]
pub struct AgentId(pub u128);

impl AgentId {
    /// Create a new random [`AgentId`].
    pub fn new() -> (id: Self)
        ensures
            (id.0 >> 76u128) & 15 == 4,
            (id.0 >> 62u128) & 3 == 2,
    {
        AgentId(random_uuid_v4())
    }

    /// The hyphenated UUID text of this identifier (its display form).
    pub fn to_string(&self) -> (s: String)
        ensures
            s@ == uuid_text(self.0),
            uuid_parse(s@) == Some(self.0),
    {
        uuid_to_text(self.0)
    }

    /// Parse an identifier from UUID text.
    pub fn from_text(s: &str) -> (r: Result<Self, ParseIdError>)
        ensures
            match uuid_parse_outcome(s@) {
                Ok(v) => r == Ok::<Self, ParseIdError>(AgentId(v)),
                Err(m) => r matches Err(e) && e.message@ == m,
            },
    {
        match uuid_from_text(s) {
            Ok(v) => Ok(AgentId(v)),
            Err(message) => Err(ParseIdError { message }),
        }
    }
}

impl Default for AgentId {
    fn default() -> (id: Self) {
        Self::new()
    }
}

impl std::str::FromStr for AgentId {
    type Err = ParseIdError;

    fn from_str(s: &str) -> (r: Result<Self, Self::Err>)
        ensures
            match uuid_parse_outcome(s@) {
                Ok(v) => r == Ok::<Self, ParseIdError>(AgentId(v)),
                Err(m) => r matches Err(e) && e.message@ == m,
            },
    {
        Self::from_text(s)
    }
}

} // verus!

verus! {

/// Unique identifier for a conversation thread.
#[derive(Clone, Copy, Debug, PartialEq, Eq, Structural, Hash)]
pub struct ConversationId(pub u128);

impl ConversationId {
    /// Create a new random [`ConversationId`].
    pub fn new() -> (id: Self)
        ensures
            (id.0 >> 76u128) & 15 == 4,
            (id.0 >> 62u128) & 3 == 2,
    {
        ConversationId(random_uuid_v4())
    }

    /// The hyphenated UUID text of this identifier (its display form).
    pub fn to_string(&self) -> (s: String)
        ensures
            s@ == uuid_text(self.0),
            uuid_parse(s@) == Some(self.0),
    {
        uuid_to_text(self.0)
    }

    /// Parse an identifier from UUID text.
    pub fn from_text(s: &str) -> (r: Result<Self, ParseIdError>)
        ensures
            match uuid_parse_outcome(s@) {
                Ok(v) => r == Ok::<Self, ParseIdError>(ConversationId(v)),
                Err(m) => r matches Err(e) && e.message@ == m,
            },
    {
        match uuid_from_text(s) {
            Ok(v) => Ok(ConversationId(v)),
            Err(message) => Err(ParseIdError { message }),
        }
    }
}

impl Default for ConversationId {
    fn default() -> (id: Self) {
        Self::new()
    }
}

impl std::str::FromStr for ConversationId {
    type Err = ParseIdError;

    fn from_str(s: &str) -> (r: Result<Self, Self::Err>)
        ensures
            match uuid_parse_outcome(s@) {
                Ok(v) => r == Ok::<Self, ParseIdError>(ConversationId(v)),
                Err(m) => r matches Err(e) && e.message@ == m,
            },
    {
        Self::from_text(s)
    }
}

} // verus!

verus! {

/// Unique identifier for a single chat or task message.
#[derive(Clone, Copy, Debug, PartialEq, Eq, Structural, Hash)]
pub struct MessageId(pub u128);

impl MessageId {
    /// Create a new random [`MessageId`].
    pub fn new() -> (id: Self)
        ensures
            (id.0 >> 76u128) & 15 == 4,
            (id.0 >> 62u128) & 3 == 2,
    {
        MessageId(random_uuid_v4())
    }

    /// The hyphenated UUID text of this identifier (its display form).
    pub fn to_string(&self) -> (s: String)
        ensures
            s@ == uuid_text(self.0),
            uuid_parse(s@) == Some(self.0),
    {
        uuid_to_text(self.0)
    }

    /// Parse an identifier from UUID text.
    pub fn from_text(s: &str) -> (r: Result<Self, ParseIdError>)
        ensures
            match uuid_parse_outcome(s@) {
                Ok(v) => r == Ok::<Self, ParseIdError>(MessageId(v)),
                Err(m) => r matches Err(e) && e.message@ == m,
            },
    {
        match uuid_from_text(s) {
            Ok(v) => Ok(MessageId(v)),
            Err(message) => Err(ParseIdError { message }),
        }
    }
}

impl Default for MessageId {
    fn default() -> (id: Self) {
        Self::new()
    }
}

impl std::str::FromStr for MessageId {
    type Err = ParseIdError;

    fn from_str(s: &str) -> (r: Result<Self, Self::Err>)
        ensures
            match uuid_parse_outcome(s@) {
                Ok(v) => r == Ok::<Self, ParseIdError>(MessageId(v)),
                Err(m) => r matches Err(e) && e.message@ == m,
            },
    {
        Self::from_text(s)
    }
}

} // verus!

verus! {

/// Unique identifier for a registered tool.
#[derive(Clone, Copy, Debug, PartialEq, Eq, Structural, Hash)]
pub struct ToolId(pub u128);

impl ToolId {
    /// Create a new random [`ToolId`].
    pub fn new() -> (id: Self)
        ensures
            (id.0 >> 76u128) & 15 == 4,
            (id.0 >> 62u128) & 3 == 2,
    {
        ToolId(random_uuid_v4())
    }

    /// The hyphenated UUID text of this identifier (its display form).
    pub fn to_string(&self) -> (s: String)
        ensures
            s@ == uuid_text(self.0),
            uuid_parse(s@) == Some(self.0),
    {
        uuid_to_text(self.0)
    }

    /// Parse an identifier from UUID text.
    pub fn from_text(s: &str) -> (r: Result<Self, ParseIdError>)
        ensures
            match uuid_parse_outcome(s@) {
                Ok(v) => r == Ok::<Self, ParseIdError>(ToolId(v)),
                Err(m) => r matches Err(e) && e.message@ == m,
            },
    {
        match uuid_from_text(s) {
            Ok(v) => Ok(ToolId(v)),
            Err(message) => Err(ParseIdError { message }),
        }
    }
}

impl Default for ToolId {
    fn default() -> (id: Self) {
        Self::new()
    }
}

impl std::str::FromStr for ToolId {
    type Err = ParseIdError;

    fn from_str(s: &str) -> (r: Result<Self, Self::Err>)
        ensures
            match uuid_parse_outcome(s@) {
                Ok(v) => r == Ok::<Self, ParseIdError>(ToolId(v)),
                Err(m) => r matches Err(e) && e.message@ == m,
            },
    {
        Self::from_text(s)
    }
}

} // verus!

verus! {

/// Unique identifier for a task.
#[derive(Clone, Copy, Debug, PartialEq, Eq, Structural, Hash)]
pub struct TaskId(pub u128);

impl TaskId {
    /// Create a new random [`TaskId`].
    pub fn new() -> (id: Self)
        ensures
            (id.0 >> 76u128) & 15 == 4,
            (id.0 >> 62u128) & 3 == 2,
    {
        TaskId(random_uuid_v4())
    }

    /// The hyphenated UUID text of this identifier (its display form).
    pub fn to_string(&self) -> (s: String)
        ensures
            s@ == uuid_text(self.0),
            uuid_parse(s@) == Some(self.0),
    {
        uuid_to_text(self.0)
    }

    /// Parse an identifier from UUID text.
    pub fn from_text(s: &str) -> (r: Result<Self, ParseIdError>)
        ensures
            match uuid_parse_outcome(s@) {
                Ok(v) => r == Ok::<Self, ParseIdError>(TaskId(v)),
                Err(m) => r matches Err(e) && e.message@ == m,
            },
    {
        match uuid_from_text(s) {
            Ok(v) => Ok(TaskId(v)),
            Err(message) => Err(ParseIdError { message }),
        }
    }
}

impl Default for TaskId {
    fn default() -> (id: Self) {
        Self::new()
    }
}

impl std::str::FromStr for TaskId {
    type Err = ParseIdError;

    fn from_str(s: &str) -> (r: Result<Self, Self::Err>)
        ensures
            match uuid_parse_outcome(s@) {
                Ok(v) => r == Ok::<Self, ParseIdError>(TaskId(v)),
                Err(m) => r matches Err(e) && e.message@ == m,
            },
    {
        Self::from_text(s)
    }
}

} // verus!

verus! {

/// Identifier grouping related tasks into one context.
#[derive(Clone, Copy, Debug, PartialEq, Eq, Structural, Hash)]
pub struct ContextId(pub u128);

impl ContextId {
    /// Create a new random [`ContextId`].
    pub fn new() -> (id: Self)
        ensures
            (id.0 >> 76u128) & 15 == 4,
            (id.0 >> 62u128) & 3 == 2,
    {
        ContextId(random_uuid_v4())
    }

    /// The hyphenated UUID text of this identifier (its display form).
    pub fn to_string(&self) -> (s: String)
        ensures
            s@ == uuid_text(self.0),
            uuid_parse(s@) == Some(self.0),
    {
        uuid_to_text(self.0)
    }

    /// Parse an identifier from UUID text.
    pub fn from_text(s: &str) -> (r: Result<Self, ParseIdError>)
        ensures
            match uuid_parse_outcome(s@) {
                Ok(v) => r == Ok::<Self, ParseIdError>(ContextId(v)),
                Err(m) => r matches Err(e) && e.message@ == m,
            },
    {
        match uuid_from_text(s) {
            Ok(v) => Ok(ContextId(v)),
            Err(message) => Err(ParseIdError { message }),
        }
    }
}

impl Default for ContextId {
    fn default() -> (id: Self) {
        Self::new()
    }
}

impl std::str::FromStr for ContextId {
    type Err = ParseIdError;

    fn from_str(s: &str) -> (r: Result<Self, Self::Err>)
        ensures
            match uuid_parse_outcome(s@) {
                Ok(v) => r == Ok::<Self, ParseIdError>(ContextId(v)),
                Err(m) => r matches Err(e) && e.message@ == m,
            },
    {
        Self::from_text(s)
    }
}

} // verus!

verus! {

/// Unique identifier for a task artifact.
#[derive(Clone, Copy, Debug, PartialEq, Eq, Structural, Hash)]
pub struct ArtifactId(pub u128);

impl ArtifactId {
    /// Create a new random [`ArtifactId`].
    pub fn new() -> (id: Self)
        ensures
            (id.0 >> 76u128) & 15 == 4,
            (id.0 >> 62u128) & 3 == 2,
    {
        ArtifactId(random_uuid_v4())
    }

    /// The hyphenated UUID text of this identifier (its display form).
    pub fn to_string(&self) -> (s: String)
        ensures
            s@ == uuid_text(self.0),
            uuid_parse(s@) == Some(self.0),
    {
        uuid_to_text(self.0)
    }

    /// Parse an identifier from UUID text.
    pub fn from_text(s: &str) -> (r: Result<Self, ParseIdError>)
        ensures
            match uuid_parse_outcome(s@) {
                Ok(v) => r == Ok::<Self, ParseIdError>(ArtifactId(v)),
                Err(m) => r matches Err(e) && e.message@ == m,
            },
    {
        match uuid_from_text(s) {
            Ok(v) => Ok(ArtifactId(v)),
            Err(message) => Err(ParseIdError { message }),
        }
    }
}

impl Default for ArtifactId {
    fn default() -> (id: Self) {
        Self::new()
    }
}

impl std::str::FromStr for ArtifactId {
    type Err = ParseIdError;

    fn from_str(s: &str) -> (r: Result<Self, Self::Err>)
        ensures
            match uuid_parse_outcome(s@) {
                Ok(v) => r == Ok::<Self, ParseIdError>(ArtifactId(v)),
                Err(m) => r matches Err(e) && e.message@ == m,
            },
    {
        Self::from_text(s)
    }
}

} // verus!

verus! {

/// Identifier for a single push-notification configuration.
#[derive(Clone, Copy, Debug, PartialEq, Eq, Structural, Hash)]
pub struct PushNotificationId(pub u128);

impl PushNotificationId {
    /// Create a new random [`PushNotificationId`].
    pub fn new() -> (id: Self)
        ensures
            (id.0 >> 76u128) & 15 == 4,
            (id.0 >> 62u128) & 3 == 2,
    {
        PushNotificationId(random_uuid_v4())
    }

    /// The hyphenated UUID text of this identifier (its display form).
    pub fn to_string(&self) -> (s: String)
        ensures
            s@ == uuid_text(self.0),
            uuid_parse(s@) == Some(self.0),
    {
        uuid_to_text(self.0)
    }

    /// Parse an identifier from UUID text.
    pub fn from_text(s: &str) -> (r: Result<Self, ParseIdError>)
        ensures
            match uuid_parse_outcome(s@) {
                Ok(v) => r == Ok::<Self, ParseIdError>(PushNotificationId(v)),
                Err(m) => r matches Err(e) && e.message@ == m,
            },
    {
        match uuid_from_text(s) {
            Ok(v) => Ok(PushNotificationId(v)),
            Err(message) => Err(ParseIdError { message }),
        }
    }
}

impl Default for PushNotificationId {
    fn default() -> (id: Self) {
        Self::new()
    }
}

impl std::str::FromStr for PushNotificationId {
    type Err = ParseIdError;

    fn from_str(s: &str) -> (r: Result<Self, Self::Err>)
        ensures
            match uuid_parse_outcome(s@) {
                Ok(v) => r == Ok::<Self, ParseIdError>(PushNotificationId(v)),
                Err(m) => r matches Err(e) && e.message@ == m,
            },
    {
        Self::from_text(s)
    }
}

} // verus!
