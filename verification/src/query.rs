//! Paging by keyset: the arguments of a page request, the cursor that marks
//! a place in the order `(created_at, key)`, and the shape of a page.

use vstd::prelude::*;
use vstd::string::StringExecFns;
use crate::error::Error;
use crate::text::{
    all_digits, append_decimal, chars_of, decimal, decimal_is_digits, decimal_value,
    decimal_value_of_decimal, is_digit, parse_decimal, text_of,
};

verus! {

/// The arguments of a page request. `first` and `after` page forward, `last`
/// and `before` page backward.
#[derive(Debug, Default, Clone, PartialEq, Eq)]
pub struct QueryArgs {
    pub first: Option<u16>,
    pub after: Option<String>,
    pub last: Option<u16>,
    pub before: Option<String>,
}

/// One page of a result.
#[derive(Debug, Default, Clone, PartialEq, Eq)]
pub struct QueryResult<N> {
    pub edges: Vec<N>,
    pub page_info: PageInfo,
}

/// One entry of a page: a node and the cursor that marks its place.
#[derive(Debug, Clone, PartialEq, Eq)]
pub struct Edge<N> {
    pub cursor: String,
    pub node: N,
}

/// What a page says about its neighbours.
#[derive(Debug, Default, Clone, PartialEq, Eq)]
pub struct PageInfo {
    pub has_previous_page: bool,
    pub has_next_page: bool,
    pub start_cursor: Option<String>,
    pub end_cursor: Option<String>,
}

/// A place in the order `(created_at, key)`.
#[derive(Debug, Clone, PartialEq, Eq)]
pub struct Cursor {
    pub created_at: u64,
    pub key: String,
}

/// The direction in which a request pages.
#[derive(Debug, Clone, Copy, PartialEq, Eq)]
pub enum Direction {
    Forward,
    Backward,
}

/// A page request after its arguments were checked and its cursor was read.
#[derive(Debug, Clone, PartialEq, Eq)]
pub struct Page {
    pub direction: Direction,
    /// The most entries the page may hold; `None` for no limit.
    pub limit: Option<u16>,
    /// The place after which (forward) or before which (backward) the page
    /// begins; `None` to begin at the end of the table one starts from.
    pub cursor: Option<Cursor>,
}

/// The character that separates the two parts of a cursor's token.
pub open spec fn bar() -> char {
    '|'
}

/// The token of the place `(created_at, key)`: the time in decimal, a bar,
/// and the key as it is.
pub open spec fn spec_encode(created_at: u64, key: Seq<char>) -> Seq<char> {
    decimal(created_at as nat).push(bar()) + key
}

/// The first position at or after `from` that holds a bar.
pub open spec fn first_bar_from(token: Seq<char>, from: int) -> Option<int>
    decreases token.len() - from,
{
    if from < 0 || from >= token.len() {
        None
    } else if token[from] == bar() {
        Some(from)
    } else {
        first_bar_from(token, from + 1)
    }
}

/// The place that `token` marks, if it is a token: a non-empty run of
/// digits whose value fits in 64 bits, a bar, and any text.
pub open spec fn spec_decode(token: Seq<char>) -> Option<(u64, Seq<char>)> {
    match first_bar_from(token, 0) {
        Some(at) => {
            let digits = token.subrange(0, at);
            if at > 0 && all_digits(digits) && decimal_value(digits) <= u64::MAX {
                Some((decimal_value(digits) as u64, token.subrange(at + 1, token.len() as int)))
            } else {
                None
            }
        },
        None => None,
    }
}

/// `first_bar_from` finds the first bar from `from` on, exactly when there is one.
pub proof fn first_bar_is_first(token: Seq<char>, from: int)
    requires
        0 <= from,
    ensures
        match first_bar_from(token, from) {
            Some(at) => from <= at < token.len() && token[at] == bar() && forall|j: int|
                from <= j < at ==> #[trigger] token[j] != bar(),
            None => forall|j: int| from <= j < token.len() ==> #[trigger] token[j] != bar(),
        },
    decreases token.len() - from,
{
    if from < token.len() && token[from] != bar() {
        first_bar_is_first(token, from + 1);
    }
}

/// A cursor's token reads back as the place it was made from: the same time
/// and the same key, whatever the key holds.
pub proof fn cursor_round_trip(created_at: u64, key: Seq<char>)
    ensures
        spec_decode(spec_encode(created_at, key)) == Some((created_at, key)),
{
    let digits = decimal(created_at as nat);
    let token = spec_encode(created_at, key);
    decimal_is_digits(created_at as nat);
    decimal_value_of_decimal(created_at as nat);
    first_bar_is_first(token, 0);
    let n = digits.len() as int;
    assert(token[n] == bar());
    assert forall|j: int| 0 <= j < n implies #[trigger] token[j] != bar() by {
        assert(token[j] == digits[j]);
        assert(is_digit(digits[j]));
    }
    let at = first_bar_from(token, 0)->Some_0;
    if at < n {
        assert(token[at] != bar());
    }
    assert(at == n);
    assert(token.subrange(0, at) =~= digits);
    assert(token.subrange(at + 1, token.len() as int) =~= key);
}

/// Two places with the same token are the same place.
pub proof fn cursor_tokens_differ(a_time: u64, a_key: Seq<char>, b_time: u64, b_key: Seq<char>)
    requires
        spec_encode(a_time, a_key) == spec_encode(b_time, b_key),
    ensures
        a_time == b_time,
        a_key == b_key,
{
    cursor_round_trip(a_time, a_key);
    cursor_round_trip(b_time, b_key);
}

impl Cursor {
    /// The cursor's token.
    pub fn encode(&self) -> (token: String)
        ensures
            token@ == spec_encode(self.created_at, self.key@),
    {
        encode_place(self.created_at, self.key.as_str())
    }

    /// Reads a token back.
    pub fn decode(token: &str) -> (cursor: Option<Cursor>)
        ensures
            match cursor {
                Some(cursor) => spec_decode(token@) == Some((cursor.created_at, cursor.key@)),
                None => spec_decode(token@) is None,
            },
    {
        let chars = chars_of(token);
        let mut at: usize = 0;
        while at < chars.len() && chars[at] != '|'
            invariant
                chars@ == token@,
                at <= chars@.len(),
                first_bar_from(token@, 0) == first_bar_from(token@, at as int),
            decreases chars@.len() - at,
        {
            at = at + 1;
        }
        if at >= chars.len() {
            return None;
        }
        match parse_decimal(&chars, 0, at) {
            Some(created_at) => {
                let key = text_of(&chars, at + 1, chars.len());
                Some(Cursor { created_at, key })
            },
            None => None,
        }
    }
}

/// The token of the place `(created_at, key)`.
pub fn encode_place(created_at: u64, key: &str) -> (token: String)
    ensures
        token@ == spec_encode(created_at, key@),
{
    let mut token = String::new();
    append_decimal(&mut token, created_at);
    token.append("|");
    token.append(key);
    proof {
        reveal_strlit("|");
        assert("|"@ =~= seq![bar()]);
        assert(token@ =~= spec_encode(created_at, key@));
    }
    token
}

/// What is said about arguments of both directions at once.
pub open spec fn mixed_directions_message() -> Seq<char> {
    "first/after cannot be combined with last/before"@
}

/// What is said about a cursor that is no token.
pub open spec fn invalid_cursor_message() -> Seq<char> {
    "invalid cursor"@
}

impl QueryArgs {
    /// Whether the arguments page in both directions at once.
    pub open spec fn mixes_directions(self) -> bool {
        (self.first is Some || self.after is Some) && (self.last is Some || self.before is Some)
    }

    /// What is wrong with arguments that ask for no page.
    pub open spec fn spec_rejection(self) -> Seq<char> {
        if self.mixes_directions() {
            mixed_directions_message()
        } else {
            invalid_cursor_message()
        }
    }

    /// The page that the arguments ask for.
    pub open spec fn spec_plan(self) -> Option<(Direction, Option<u16>, Option<(u64, Seq<char>)>)> {
        let forward = self.first is Some || self.after is Some;
        let backward = self.last is Some || self.before is Some;
        if forward && backward {
            None
        } else if backward {
            match self.before {
                Some(token) => match spec_decode(token@) {
                    Some(place) => Some((Direction::Backward, self.last, Some(place))),
                    None => None,
                },
                None => Some((Direction::Backward, self.last, None)),
            }
        } else {
            match self.after {
                Some(token) => match spec_decode(token@) {
                    Some(place) => Some((Direction::Forward, self.first, Some(place))),
                    None => None,
                },
                None => Some((Direction::Forward, self.first, None)),
            }
        }
    }

    /// Checks the arguments and reads the cursor. Arguments of both
    /// directions at once, and a cursor that is no token, are bad requests.
    pub fn plan(&self) -> (result: Result<Page, Error>)
        ensures
            match self.spec_plan() {
                Some((direction, limit, place)) => result matches Ok(page) && page.direction
                    == direction && page.limit == limit && page.spec_place() == place,
                None => result matches Err(Error::BadRequest(reason)) && reason@
                    == self.spec_rejection(),
            },
    {
        let forward = self.first.is_some() || self.after.is_some();
        let backward = self.last.is_some() || self.before.is_some();
        if forward && backward {
            return Err(
                Error::BadRequest(String::from_str("first/after cannot be combined with last/before")),
            );
        }
        let (direction, limit, token) = if backward {
            (Direction::Backward, self.last, &self.before)
        } else {
            (Direction::Forward, self.first, &self.after)
        };
        match token {
            Some(token) => match Cursor::decode(token.as_str()) {
                Some(cursor) => Ok(Page { direction, limit, cursor: Some(cursor) }),
                None => Err(Error::BadRequest(String::from_str("invalid cursor"))),
            },
            None => Ok(Page { direction, limit, cursor: None }),
        }
    }
}

impl Page {
    /// The place that the page's cursor marks.
    pub open spec fn spec_place(self) -> Option<(u64, Seq<char>)> {
        match self.cursor {
            Some(cursor) => Some((cursor.created_at, cursor.key@)),
            None => None,
        }
    }

    /// How many rows to fetch at most: one more than the limit, so that the
    /// page can tell whether anything lies beyond it. `None` for all rows.
    pub fn fetch_limit(&self) -> (limit: Option<u32>)
        ensures
            match self.limit {
                Some(n) => limit == Some((n + 1) as u32),
                None => limit is None,
            },
    {
        match self.limit {
            Some(n) => Some(n as u32 + 1),
            None => None,
        }
    }
}

} // verus!
