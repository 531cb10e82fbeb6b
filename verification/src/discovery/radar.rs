//! The markets of an event, as the event service describes them.
use crate::discovery::client::{
    build_direct,
    build_proxied,
    https_proxy,
    is_proxy_address,
    BuiltClient,
};
use crate::discovery::json::Json;
use crate::scalar::Scalar;
use crate::text::{
    after_last,
    all_digits,
    contains_text,
    is_digit,
    last_part,
    law_the_last_part_stands_behind_the_last_separator,
    number_of,
    occurs_in,
};
use chrono::DateTime;
use vstd::prelude::*;
use vstd::string::*;

verus! {

/// The bits of 10.0.
pub const TEN: u64 = 0x4024_0000_0000_0000;

/// The bits of 1000.0.
pub const THOUSAND: u64 = 0x408f_4000_0000_0000;

/// Events on one page of the service.
pub const PAGE_LIMIT: u32 = 100;

/// Seconds to its expiry that a five-minute market has at least when it is taken up.
pub const NEAREST_EXPIRY_SECS: i64 = 60;

/// Seconds to its expiry that a five-minute market has at most when it is taken up.
pub const FARTHEST_EXPIRY_SECS: i64 = 180;

/// Status of an answer that the service denies.
pub const FORBIDDEN: u16 = 403;

/// Status of an answer to a question for what does not exist.
pub const NOT_FOUND: u16 = 404;

/// The error of a date that `chrono` cannot read.
#[verifier::external_type_specification]
#[verifier::external_body]
pub struct ExParseError(chrono::ParseError);

/// A market that can be traded.
#[derive(Clone, Debug)]
pub struct MarketInfo {
    pub token_id: String,
    pub strike_price: Scalar,
    pub expiry_timestamp: i64,
}

/// Why no markets were found.
#[derive(Debug)]
pub enum RadarError {
    /// The service denies the event with this slug.
    EventForbidden(String),
    /// The service denies the list of events.
    PageForbidden,
    NotAnArray,
    InvalidEndDate(chrono::ParseError),
    /// The client of the service could not be set up.
    Client(reqwest::Error),
}

impl RadarError {
    /// The text that the error is reported with; `None` where it is that of the error
    /// that it holds.
    pub open spec fn text(self) -> Option<Seq<char>> {
        match self {
            RadarError::EventForbidden(slug) => Some(
                "403 Forbidden: IP may be blocked for slug '"@ + slug@ + "'"@,
            ),
            RadarError::PageForbidden => Some("Gamma API 403"@),
            RadarError::NotAnArray => Some("gamma events response is not an array"@),
            RadarError::InvalidEndDate(_) => None,
            RadarError::Client(_) => None,
        }
    }

    /// The text that the error is reported with; `None` where it is that of the error
    /// that it holds.
    pub fn message(&self) -> (r: Option<String>)
        ensures
            r is Some == self.text() is Some,
            r matches Some(text) ==> self.text() == Some(text@),
    {
        match self {
            RadarError::EventForbidden(slug) => {
                let mut text = "403 Forbidden: IP may be blocked for slug '".to_owned();
                text.append(slug.as_str());
                text.append("'");
                Some(text)
            },
            RadarError::PageForbidden => Some("Gamma API 403".to_owned()),
            RadarError::NotAnArray => Some("gamma events response is not an array".to_owned()),
            RadarError::InvalidEndDate(_) => None,
            RadarError::Client(_) => None,
        }
    }
}

/// The second at which `DateTime::parse_from_rfc3339` places a text; `None` where it cannot read
/// the text.
pub uninterp spec fn rfc3339_timestamp(text: Seq<char>) -> Option<i64>;

/// Calls `DateTime::parse_from_rfc3339` and `DateTime::timestamp`. Claimed of them: whether the
/// text is read, and as which second, depends on the text alone. What the error says is left
/// open.
#[verifier::external_body]
fn parse_rfc3339(text: &str) -> (r: Result<i64, chrono::ParseError>)
    ensures
        r is Ok == rfc3339_timestamp(text@) is Some,
        r matches Ok(t) ==> rfc3339_timestamp(text@) == Some(t),
{
    DateTime::parse_from_rfc3339(text).map(|date| date.timestamp())
}

/// The elements of the array that `serde_json::from_str` reads from a text, `None` for an
/// element that is no text; `None` where the text is no JSON array.
pub uninterp spec fn json_texts(raw: Seq<char>) -> Option<Seq<Option<Seq<char>>>>;

/// The elements with their texts as sequences of characters.
pub open spec fn plain_texts(list: Option<Vec<Option<String>>>) -> Option<Seq<Option<Seq<char>>>> {
    match list {
        Some(elements) => Some(
            elements@.map_values(
                |e: Option<String>|
                    match e {
                        Some(text) => Some(text@),
                        None => None,
                    },
            ),
        ),
        None => None,
    }
}

/// Calls `serde_json::from_str`. Claimed of it: which texts the array holds, and whether the
/// text is a JSON array at all, depends on the text alone.
#[verifier::external_body]
fn parse_json_texts(raw: &str) -> (r: Option<Vec<Option<String>>>)
    ensures
        plain_texts(r) == json_texts(raw@),
{
    let parsed: serde_json::Value = serde_json::from_str(raw).ok()?;
    let elements = parsed.as_array()?;
    Some(elements.iter().map(|e| e.as_str().map(|text| text.to_string())).collect())
}

/// The second at the end of a slug: ten digits behind the last hyphen.
pub open spec fn slug_expiry(slug: Seq<char>) -> Option<i64> {
    let last = after_last(slug, '-');
    if last.len() == 10 && all_digits(last) {
        Some(number_of(last) as i64)
    } else {
        None
    }
}

/// The second at the end of a slug; `None` where it does not end in a hyphen and ten digits, or
/// in ten digits alone.
pub fn parse_expiry_from_slug(slug: &str) -> (r: Option<i64>)
    ensures
        r == slug_expiry(slug@),
        r matches Some(t) ==> 0 <= t < 10_000_000_000 && t == number_of(after_last(slug@, '-')),
{
    let last = last_part(slug, '-');
    if last.unicode_len() != 10 {
        return None;
    }
    let mut value: i64 = 0;
    let mut i: usize = 0;
    proof {
        assert(last@.take(0) =~= Seq::<char>::empty());
    }
    let ghost limits: Seq<int> = seq![
        1int,
        10,
        100,
        1_000,
        10_000,
        100_000,
        1_000_000,
        10_000_000,
        100_000_000,
        1_000_000_000,
        10_000_000_000,
    ];
    while i < 10
        invariant
            i <= 10,
            last@.len() == 10,
            limits == seq![
                1int,
                10,
                100,
                1_000,
                10_000,
                100_000,
                1_000_000,
                10_000_000,
                100_000_000,
                1_000_000_000,
                10_000_000_000,
            ],
            last@ == after_last(slug@, '-'),
            all_digits(last@.take(i as int)),
            value == number_of(last@.take(i as int)),
            0 <= value < limits[i as int],
        decreases 10 - i,
    {
        let c: char = last.get_char(i);
        proof {
            assert(last@.take(i + 1).drop_last() =~= last@.take(i as int));
            assert(last@.take(i + 1).last() == c);
        }
        if c < '0' || c > '9' {
            assert(!is_digit(last@[i as int]));
            return None;
        }
        assert(limits[i + 1] == 10 * limits[i as int]);
        value = value * 10 + (c as u32 as i64 - 48);
        i = i + 1;
        proof {
            assert forall|j: int| 0 <= j < i implies is_digit(#[trigger] last@.take(i as int)[j]) by {
                if j < i - 1 {
                    assert(is_digit(last@.take(i - 1)[j]));
                }
            }
        }
    }
    proof {
        assert(last@.take(10) =~= last@);
    }
    Some(value)
}

/// The first character of a number in a text.
pub open spec fn starts_number(c: char) -> bool {
    is_digit(c) || c == '.' || c == '-'
}

/// A further character of a number in a text.
pub open spec fn continues_number(c: char) -> bool {
    is_digit(c) || c == '.'
}

/// Where a number starts, from `from` on; the end of the text where none does.
pub open spec fn number_start(text: Seq<char>, from: int) -> int
    decreases text.len() - from,
{
    if from >= text.len() {
        text.len() as int
    } else if starts_number(text[from]) {
        from
    } else {
        number_start(text, from + 1)
    }
}

/// Where a number ends that goes on at `from`.
pub open spec fn number_end(text: Seq<char>, from: int) -> int
    decreases text.len() - from,
{
    if from >= text.len() {
        text.len() as int
    } else if continues_number(text[from]) {
        number_end(text, from + 1)
    } else {
        from
    }
}

/// The first stretch of a text that can be a number: not a lone hyphen or point.
pub open spec fn number_text(text: Seq<char>) -> Option<Seq<char>> {
    let start = number_start(text, 0);
    let part = text.subrange(start, number_end(text, start + 1));
    if start >= text.len() || part == seq!['-'] || part == seq!['.'] {
        None
    } else {
        Some(part)
    }
}

/// The first stretch of digits and points in a text, with a hyphen in front of it if there is
/// one; `None` where there is no such stretch or it is a lone hyphen or point.
pub fn parse_number_from_text(text: &str) -> (r: Option<String>)
    ensures
        r is Some == number_text(text@) is Some,
        r matches Some(part) ==> number_text(text@) == Some(part@),
{
    let total: usize = text.unicode_len();
    let mut start: usize = 0;
    while start < total && !is_number_start(text.get_char(start))
        invariant
            start <= total,
            total == text@.len(),
            number_start(text@, 0) == number_start(text@, start as int),
        decreases total - start,
    {
        start = start + 1;
    }
    if start >= total {
        return None;
    }
    let mut end: usize = start + 1;
    while end < total && is_number_part(text.get_char(end))
        invariant
            start < end <= total,
            total == text@.len(),
            number_end(text@, start + 1) == number_end(text@, end as int),
        decreases total - end,
    {
        end = end + 1;
    }
    let first: char = text.get_char(start);
    let ghost part = text@.subrange(start as int, end as int);
    if end == start + 1 && (first == '-' || first == '.') {
        proof {
            assert(part =~= seq![first]);
        }
        return None;
    }
    proof {
        if part == seq!['-'] || part == seq!['.'] {
            assert(part.len() == 1 && part[0] == first);
        }
    }
    Some(text.substring_char(start, end).to_owned())
}

fn is_number_start(c: char) -> (r: bool)
    ensures
        r == starts_number(c),
{
    ('0' <= c && c <= '9') || c == '.' || c == '-'
}

fn is_number_part(c: char) -> (r: bool)
    ensures
        r == continues_number(c),
{
    ('0' <= c && c <= '9') || c == '.'
}

/// The token of the yes outcome: the first of the market's token ids, which stand in an array or
/// in a text that holds a JSON array.
pub open spec fn yes_token(market: Json) -> Option<Seq<char>> {
    match market.field("clobTokenIds"@) {
        Some(Json::Array(ids)) => if ids@.len() > 0 {
            match ids@[0] {
                Json::Text(id) => Some(id@),
                _ => None,
            }
        } else {
            None
        },
        Some(Json::Text(raw)) => match json_texts(raw@) {
            Some(ids) => if ids.len() > 0 {
                ids[0]
            } else {
                None
            },
            None => None,
        },
        _ => None,
    }
}

/// The token of the first of several ids.
pub fn first_id(ids: Option<Vec<Option<String>>>) -> (r: Option<String>)
    ensures
        r is Some == (ids is Some && ids->0@.len() > 0 && ids->0@[0] is Some),
        r matches Some(id) ==> ids->0@[0] == Some(id),
{
    match ids {
        Some(list) => {
            if list.len() == 0 {
                return None;
            }
            match &list[0] {
                Some(id) => Some(id.clone()),
                None => None,
            }
        },
        None => None,
    }
}

/// The token of the yes outcome: the first of the market's token ids, which stand in an array or
/// in a text that holds a JSON array.
pub fn extract_yes_token_id(market: &Json) -> (r: Option<String>)
    ensures
        r is Some == yes_token(*market) is Some,
        r matches Some(id) ==> yes_token(*market) == Some(id@),
{
    match market.get("clobTokenIds") {
        Some(Json::Array(ids)) => {
            if ids.len() == 0 {
                return None;
            }
            match &ids[0] {
                Json::Text(id) => Some(id.clone()),
                _ => None,
            }
        },
        Some(Json::Text(raw)) => first_id(parse_json_texts(raw.as_str())),
        _ => None,
    }
}

/// A market that is open, with the texts from which its strike and expiry are read.
pub struct Candidate {
    pub token_id: String,
    /// The strike, where the market gives it as a number.
    pub line_number: Option<Scalar>,
    /// The strike, where the market gives it as a text.
    pub line_text: Option<String>,
    /// The number in the market's title.
    pub title_number: Option<String>,
    pub end_date: Option<String>,
}

/// A [`Candidate`] with its texts as sequences of characters.
pub struct Listing {
    pub token: Seq<char>,
    pub line_number: Option<Scalar>,
    pub line_text: Option<Seq<char>>,
    pub title_number: Option<Seq<char>>,
    pub end_date: Option<Seq<char>>,
}

/// A text that may be missing, as a sequence of characters.
pub open spec fn seen(text: Option<String>) -> Option<Seq<char>> {
    match text {
        Some(t) => Some(t@),
        None => None,
    }
}

impl View for Candidate {
    type V = Listing;

    open spec fn view(&self) -> Listing {
        Listing {
            token: self.token_id@,
            line_number: self.line_number,
            line_text: seen(self.line_text),
            title_number: seen(self.title_number),
            end_date: seen(self.end_date),
        }
    }
}

/// The market says that it is active, and that it is not closed.
pub open spec fn is_open(market: Json) -> bool {
    &&& market.bool_field("active"@) == Some(true)
    &&& market.bool_field("closed"@) == Some(false)
}

/// What is known of a market that is open and names its token.
pub open spec fn listing_of(market: Json) -> Option<Listing> {
    match yes_token(market) {
        Some(token) => if is_open(market) {
            Some(
                Listing {
                    token,
                    line_number: match market.field("line"@) {
                        Some(Json::Number(n)) => Some(n),
                        _ => None,
                    },
                    line_text: market.text_field("line"@),
                    title_number: match market.text_field("groupItemTitle"@) {
                        Some(title) => number_text(title),
                        None => None,
                    },
                    end_date: market.text_field("endDate"@),
                },
            )
        } else {
            None
        },
        None => None,
    }
}

/// The candidates among the markets, in their order.
pub open spec fn listings_of(markets: Seq<Json>) -> Seq<Listing>
    decreases markets.len(),
{
    if markets.len() == 0 {
        Seq::empty()
    } else {
        match listing_of(markets.last()) {
            Some(listing) => listings_of(markets.drop_last()).push(listing),
            None => listings_of(markets.drop_last()),
        }
    }
}

/// The candidates among the markets of an event.
pub open spec fn event_listings(event: Json) -> Seq<Listing> {
    match event.array_field("markets"@) {
        Some(markets) => listings_of(markets),
        None => Seq::empty(),
    }
}

/// The candidates of all events, in their order.
pub open spec fn all_listings(events: Seq<Json>) -> Seq<Listing>
    decreases events.len(),
{
    if events.len() == 0 {
        Seq::empty()
    } else {
        all_listings(events.drop_last()) + event_listings(events.last())
    }
}

/// The candidates with their texts as sequences of characters.
pub open spec fn listed(candidates: Seq<Candidate>) -> Seq<Listing> {
    candidates.map_values(|c: Candidate| c@)
}

fn copied(text: Option<&String>) -> (r: Option<String>)
    ensures
        r is Some == text is Some,
        r matches Some(t) ==> t@ == text->0@,
{
    match text {
        Some(t) => Some(t.clone()),
        None => None,
    }
}

fn candidate_of(market: &Json) -> (r: Option<Candidate>)
    ensures
        r is Some == listing_of(*market) is Some,
        r matches Some(c) ==> listing_of(*market) == Some(c@),
{
    let active: bool = match market.get_bool("active") {
        Some(b) => b,
        None => false,
    };
    let closed: bool = match market.get_bool("closed") {
        Some(b) => b,
        None => true,
    };
    if !active || closed {
        return None;
    }
    let token_id = match extract_yes_token_id(market) {
        Some(id) => id,
        None => {
            return None;
        },
    };
    let line_number = match market.get("line") {
        Some(Json::Number(n)) => Some(*n),
        _ => None,
    };
    let title_number = match market.get_text("groupItemTitle") {
        Some(title) => parse_number_from_text(title.as_str()),
        None => None,
    };
    Some(
        Candidate {
            token_id,
            line_number,
            line_text: copied(market.get_text("line")),
            title_number,
            end_date: copied(market.get_text("endDate")),
        },
    )
}

fn add_candidates(markets: &Vec<Json>, out: &mut Vec<Candidate>)
    ensures
        listed(final(out)@) == listed(old(out)@) + listings_of(markets@),
{
    let mut i: usize = 0;
    let ghost before = listed(out@);
    proof {
        assert(markets@.take(0) =~= Seq::<Json>::empty());
        assert(before + Seq::<Listing>::empty() =~= before);
    }
    while i < markets.len()
        invariant
            i <= markets.len(),
            listed(out@) == before + listings_of(markets@.take(i as int)),
        decreases markets.len() - i,
    {
        proof {
            assert(markets@.take(i + 1).drop_last() =~= markets@.take(i as int));
        }
        let ghost so_far = out@;
        if let Some(c) = candidate_of(&markets[i]) {
            out.push(c);
            proof {
                assert(listed(out@) =~= listed(so_far).push(c@));
                assert(before + listings_of(markets@.take(i + 1)) =~= (before + listings_of(
                    markets@.take(i as int),
                )).push(c@));
            }
        }
        i = i + 1;
    }
    proof {
        assert(markets@.take(i as int) =~= markets@);
    }
}

fn add_event(event: &Json, out: &mut Vec<Candidate>)
    ensures
        listed(final(out)@) == listed(old(out)@) + event_listings(*event),
{
    match event.get_array("markets") {
        Some(markets) => add_candidates(markets, out),
        None => {
            assert(listed(out@) + Seq::<Listing>::empty() =~= listed(out@));
        },
    }
}

/// The candidates of all events in the answer of the service; an error where the answer is no
/// array.
pub fn event_candidates(payload: &Json) -> (r: Result<Vec<Candidate>, RadarError>)
    ensures
        r is Ok == payload is Array,
        r matches Ok(found) ==> listed(found@) == all_listings(payload->Array_0@),
        r matches Err(e) ==> e is NotAnArray,
{
    let events = match payload {
        Json::Array(events) => events,
        _ => {
            return Err(RadarError::NotAnArray);
        },
    };
    let mut found: Vec<Candidate> = Vec::new();
    let mut i: usize = 0;
    proof {
        assert(events@.take(0) =~= Seq::<Json>::empty());
        assert(listed(found@) =~= Seq::<Listing>::empty());
    }
    while i < events.len()
        invariant
            i <= events.len(),
            listed(found@) == all_listings(events@.take(i as int)),
        decreases events.len() - i,
    {
        proof {
            assert(events@.take(i + 1).drop_last() =~= events@.take(i as int));
        }
        add_event(&events[i], &mut found);
        i = i + 1;
    }
    proof {
        assert(events@.take(i as int) =~= events@);
    }
    Ok(found)
}

/// The second at which an event expires: the one in its slug, or else its end date.
pub open spec fn event_expiry(event: Json) -> Option<i64> {
    let slug = match event.text_field("slug"@) {
        Some(slug) => slug,
        None => Seq::empty(),
    };
    match slug_expiry(slug) {
        Some(t) => Some(t),
        None => match event.text_field("endDate"@) {
            Some(date) => rfc3339_timestamp(date),
            None => None,
        },
    }
}

/// A five-minute event that expires in one to three minutes.
pub open spec fn is_near_expiry(event: Json, now: i64) -> bool {
    &&& event.text_field("slug"@) matches Some(slug) && occurs_in(slug, "updown-5m"@)
    &&& event_expiry(event) matches Some(t) && is_soon(t, now)
}

/// The candidates of the five-minute events that expire in one to three minutes, in the order
/// of the events.
pub open spec fn near_listings(events: Seq<Json>, now: i64) -> Seq<Listing>
    decreases events.len(),
{
    if events.len() == 0 {
        Seq::empty()
    } else if is_near_expiry(events.last(), now) {
        near_listings(events.drop_last(), now) + event_listings(events.last())
    } else {
        near_listings(events.drop_last(), now)
    }
}

fn expires_soon(event: &Json, now: i64) -> (r: bool)
    requires
        now + FARTHEST_EXPIRY_SECS <= i64::MAX,
    ensures
        r == is_near_expiry(*event, now),
{
    let slug = match event.get_text("slug") {
        Some(slug) => slug,
        None => {
            return false;
        },
    };
    if !contains_text(slug.as_str(), "updown-5m") {
        return false;
    }
    let expiry: i64 = match parse_expiry_from_slug(slug.as_str()) {
        Some(t) => t,
        None => match event.get_text("endDate") {
            Some(date) => match parse_rfc3339(date.as_str()) {
                Ok(t) => t,
                Err(_) => {
                    return false;
                },
            },
            None => {
                return false;
            },
        },
    };
    now + NEAREST_EXPIRY_SECS <= expiry && expiry <= now + FARTHEST_EXPIRY_SECS
}

/// The candidates of the five-minute events on one page of the service that expire in one to
/// three minutes from `now`.
pub fn updown_5m_candidates(events: &Vec<Json>, now: i64) -> (r: Vec<Candidate>)
    requires
        now + FARTHEST_EXPIRY_SECS <= i64::MAX,
    ensures
        listed(r@) == near_listings(events@, now),
{
    let mut found: Vec<Candidate> = Vec::new();
    let mut i: usize = 0;
    proof {
        assert(events@.take(0) =~= Seq::<Json>::empty());
        assert(listed(found@) =~= Seq::<Listing>::empty());
    }
    while i < events.len()
        invariant
            i <= events.len(),
            now + FARTHEST_EXPIRY_SECS <= i64::MAX,
            listed(found@) == near_listings(events@.take(i as int), now),
        decreases events.len() - i,
    {
        proof {
            assert(events@.take(i + 1).drop_last() =~= events@.take(i as int));
        }
        if expires_soon(&events[i], now) {
            add_event(&events[i], &mut found);
        }
        i = i + 1;
    }
    proof {
        assert(events@.take(i as int) =~= events@);
    }
    found
}

/// The offset of the page behind one with `count` events at `offset`, if there is one.
pub open spec fn page_behind(count: u64, offset: u32) -> Option<u32> {
    if count < PAGE_LIMIT {
        None
    } else {
        Some((offset + PAGE_LIMIT) as u32)
    }
}

/// The offset of the page behind one with `count` events at `offset`; `None` where that was the
/// last. A page that is not full is the last one.
pub fn next_page(count: u64, offset: u32) -> (r: Option<u32>)
    requires
        count >= PAGE_LIMIT ==> offset + PAGE_LIMIT <= u32::MAX,
    ensures
        r == page_behind(count, offset),
{
    if count < PAGE_LIMIT as u64 {
        None
    } else {
        Some(offset + PAGE_LIMIT)
    }
}

/// The value of a field that holds a number or the text of one. `parsed` is the number that the
/// text stands for, if any.
pub fn parse_f64_field(number: Option<Scalar>, parsed: Option<Scalar>) -> (r: Option<Scalar>)
    ensures
        r == (if number is Some {
            number
        } else {
            parsed
        }),
{
    match number {
        Some(n) => Some(n),
        None => parsed,
    }
}

/// The strike of a market: the first of the three numbers that there is.
pub open spec fn first_strike(
    line: Option<Scalar>,
    parsed_line: Option<Scalar>,
    parsed_title: Option<Scalar>,
) -> Option<Scalar> {
    if line is Some {
        line
    } else if parsed_line is Some {
        parsed_line
    } else {
        parsed_title
    }
}

/// A strike in dollars, with `thousandfold` for one that is given in thousands.
pub open spec fn dollars(strike: Scalar, thousandfold: Scalar) -> Scalar {
    if strike.below(Scalar::of(THOUSAND)) && Scalar::of(TEN).below(strike) {
        thousandfold
    } else {
        strike
    }
}

/// The strike of a market. `parsed_line` and `parsed_title` are the numbers that its two texts
/// stand for, if any.
pub fn strike_of(
    candidate: &Candidate,
    parsed_line: Option<Scalar>,
    parsed_title: Option<Scalar>,
) -> (r: Option<Scalar>)
    ensures
        r == first_strike(candidate.line_number, parsed_line, parsed_title),
{
    match parse_f64_field(candidate.line_number, parsed_line) {
        Some(n) => Some(n),
        None => parsed_title,
    }
}

/// A strike in dollars: one between ten and a thousand is given in thousands, and `thousandfold`
/// is what it comes to.
pub fn strike_in_dollars(strike: Scalar, thousandfold: Scalar) -> (r: Scalar)
    ensures
        r == dollars(strike, thousandfold),
{
    if strike.lt(&Scalar::from_bits(THOUSAND)) && Scalar::from_bits(TEN).lt(&strike) {
        thousandfold
    } else {
        strike
    }
}

/// A [`MarketInfo`] with its token as a sequence of characters.
pub struct Found {
    pub token: Seq<char>,
    pub strike_price: Scalar,
    pub expiry_timestamp: i64,
}

impl View for MarketInfo {
    type V = Found;

    open spec fn view(&self) -> Found {
        Found {
            token: self.token_id@,
            strike_price: self.strike_price,
            expiry_timestamp: self.expiry_timestamp,
        }
    }
}

/// The markets that the candidates come to with their strikes, in their order: those that have
/// a strike and an end date. `None` where one of these dates cannot be read.
pub open spec fn markets_found(listings: Seq<Listing>, strikes: Seq<Option<Scalar>>) -> Option<
    Seq<Found>,
>
    decreases listings.len(),
{
    if listings.len() == 0 {
        Some(Seq::empty())
    } else {
        match markets_found(listings.drop_last(), strikes.drop_last()) {
            None => None,
            Some(found) => match (strikes.last(), listings.last().end_date) {
                (Some(strike), Some(date)) => match rfc3339_timestamp(date) {
                    Some(t) => Some(
                        found.push(
                            Found {
                                token: listings.last().token,
                                strike_price: strike,
                                expiry_timestamp: t,
                            },
                        ),
                    ),
                    None => None,
                },
                _ => Some(found),
            },
        }
    }
}

proof fn lemma_failed_prefix(listings: Seq<Listing>, strikes: Seq<Option<Scalar>>, n: int)
    requires
        listings.len() == strikes.len(),
        0 <= n <= listings.len(),
        markets_found(listings.take(n), strikes.take(n)) is None,
    ensures
        markets_found(listings, strikes) is None,
    decreases listings.len() - n,
{
    if n < listings.len() {
        assert(listings.take(n + 1).drop_last() =~= listings.take(n));
        assert(strikes.take(n + 1).drop_last() =~= strikes.take(n));
        lemma_failed_prefix(listings, strikes, n + 1);
    } else {
        assert(listings.take(n) =~= listings);
        assert(strikes.take(n) =~= strikes);
    }
}

/// The markets that the candidates come to. A candidate without a strike or an end date is left
/// out; a date that cannot be read ends the search.
pub fn finish_markets(candidates: &Vec<Candidate>, strikes: &Vec<Option<Scalar>>) -> (r: Result<
    Vec<MarketInfo>,
    RadarError,
>)
    requires
        candidates.len() == strikes.len(),
    ensures
        r is Ok == markets_found(listed(candidates@), strikes@) is Some,
        r matches Ok(found) ==> markets_found(listed(candidates@), strikes@) == Some(
            found@.map_values(|m: MarketInfo| m@),
        ),
        r matches Err(e) ==> e is InvalidEndDate,
{
    let mut found: Vec<MarketInfo> = Vec::new();
    let mut i: usize = 0;
    let ghost listings = listed(candidates@);
    proof {
        assert(found@.map_values(|m: MarketInfo| m@) =~= Seq::<Found>::empty());
    }
    while i < candidates.len()
        invariant
            i <= candidates.len(),
            candidates.len() == strikes.len(),
            listings == listed(candidates@),
            markets_found(listings.take(i as int), strikes@.take(i as int)) == Some(
                found@.map_values(|m: MarketInfo| m@),
            ),
        decreases candidates.len() - i,
    {
        proof {
            assert(listings.take(i + 1).drop_last() =~= listings.take(i as int));
            assert(strikes@.take(i + 1).drop_last() =~= strikes@.take(i as int));
            assert(listings.take(i + 1).last() == candidates@[i as int]@);
            assert(strikes@.take(i + 1).last() == strikes@[i as int]);
        }
        let ghost before = found@;
        if let (Some(strike), Some(date)) = (strikes[i], &candidates[i].end_date) {
            match parse_rfc3339(date.as_str()) {
                Ok(t) => {
                    found.push(
                        MarketInfo {
                            token_id: candidates[i].token_id.clone(),
                            strike_price: strike,
                            expiry_timestamp: t,
                        },
                    );
                    proof {
                        let m = found@.last();
                        assert(found@.map_values(|m: MarketInfo| m@) =~= before.map_values(
                            |m: MarketInfo| m@,
                        ).push(m@));
                    }
                },
                Err(e) => {
                    proof {
                        lemma_failed_prefix(listings, strikes@, i + 1);
                    }
                    return Err(RadarError::InvalidEndDate(e));
                },
            }
        }
        i = i + 1;
    }
    proof {
        assert(listings.take(i as int) =~= listings);
        assert(strikes@.take(i as int) =~= strikes@);
    }
    Ok(found)
}

/// The second lies one to three minutes after `now`.
pub open spec fn is_soon(t: i64, now: i64) -> bool {
    now + NEAREST_EXPIRY_SECS <= t <= now + FARTHEST_EXPIRY_SECS
}

/// Those of the markets that expire one to three minutes after `now`, in their order.
pub open spec fn expiring_soon(found: Seq<Found>, now: i64) -> Seq<Found>
    decreases found.len(),
{
    if found.len() == 0 {
        Seq::empty()
    } else if is_soon(found.last().expiry_timestamp, now) {
        expiring_soon(found.drop_last(), now).push(found.last())
    } else {
        expiring_soon(found.drop_last(), now)
    }
}

/// The five-minute markets that the candidates come to: what [`finish_markets`] finds, without
/// the markets that do not expire one to three minutes after `now`.
pub fn finish_5m_markets(
    candidates: &Vec<Candidate>,
    strikes: &Vec<Option<Scalar>>,
    now: i64,
) -> (r: Result<Vec<MarketInfo>, RadarError>)
    requires
        candidates.len() == strikes.len(),
        now + FARTHEST_EXPIRY_SECS <= i64::MAX,
    ensures
        r is Ok == markets_found(listed(candidates@), strikes@) is Some,
        r matches Ok(found) ==> found@.map_values(|m: MarketInfo| m@) == expiring_soon(
            markets_found(listed(candidates@), strikes@)->0,
            now,
        ),
        r matches Ok(found) ==> forall|i: int|
            0 <= i < found.len() ==> now + NEAREST_EXPIRY_SECS <= (
            #[trigger] found@[i]).expiry_timestamp <= now + FARTHEST_EXPIRY_SECS,
        r matches Err(e) ==> e is InvalidEndDate,
{
    let all = match finish_markets(candidates, strikes) {
        Ok(all) => all,
        Err(e) => {
            return Err(e);
        },
    };
    let mut kept: Vec<MarketInfo> = Vec::new();
    let mut i: usize = 0;
    let ghost found = all@.map_values(|m: MarketInfo| m@);
    proof {
        assert(kept@.map_values(|m: MarketInfo| m@) =~= Seq::<Found>::empty());
    }
    while i < all.len()
        invariant
            i <= all.len(),
            now + FARTHEST_EXPIRY_SECS <= i64::MAX,
            found == all@.map_values(|m: MarketInfo| m@),
            kept@.map_values(|m: MarketInfo| m@) == expiring_soon(found.take(i as int), now),
            forall|j: int|
                0 <= j < kept.len() ==> is_soon((#[trigger] kept@[j]).expiry_timestamp, now),
        decreases all.len() - i,
    {
        proof {
            assert(found.take(i + 1).drop_last() =~= found.take(i as int));
            assert(found.take(i + 1).last() == all@[i as int]@);
        }
        let t: i64 = all[i].expiry_timestamp;
        if now + NEAREST_EXPIRY_SECS <= t && t <= now + FARTHEST_EXPIRY_SECS {
            let ghost before = kept@;
            kept.push(
                MarketInfo {
                    token_id: all[i].token_id.clone(),
                    strike_price: all[i].strike_price,
                    expiry_timestamp: t,
                },
            );
            proof {
                let m = kept@.last();
                assert(kept@.map_values(|m: MarketInfo| m@) =~= before.map_values(
                    |m: MarketInfo| m@,
                ).push(m@));
            }
        }
        i = i + 1;
    }
    proof {
        assert(found.take(i as int) =~= found);
    }
    Ok(kept)
}

/// The address at which the service describes an event.
pub fn event_url(slug: &str) -> (r: String)
    ensures
        r@ == "https://gamma-api.polymarket.com/events?slug="@ + slug@,
{
    let mut url = "https://gamma-api.polymarket.com/events?slug=".to_owned();
    url.append(slug);
    url
}

/// The address at which the service lists events.
pub fn events_url() -> (r: &'static str)
    ensures
        r@ == "https://gamma-api.polymarket.com/events"@,
{
    "https://gamma-api.polymarket.com/events"
}

/// What the status of an answer about an event already settles: an error where it is denied.
pub fn event_status(status: u16, slug: &str) -> (r: Result<(), RadarError>)
    ensures
        r is Err == (status == FORBIDDEN),
        r matches Err(e) ==> e is EventForbidden && e->EventForbidden_0@ == slug@,
{
    if status == FORBIDDEN {
        Err(RadarError::EventForbidden(slug.to_owned()))
    } else {
        Ok(())
    }
}

/// What the status of a page of events already settles: an error where it is denied.
pub fn page_status(status: u16) -> (r: Result<(), RadarError>)
    ensures
        r is Err == (status == FORBIDDEN),
        r matches Err(e) ==> e is PageForbidden,
{
    if status == FORBIDDEN {
        Err(RadarError::PageForbidden)
    } else {
        Ok(())
    }
}

/// Whether an event exists, as far as the status of the answer settles it: an event that is not
/// found or is denied counts as not there.
pub fn existence_by_status(status: u16) -> (r: Option<bool>)
    ensures
        r == (if status == NOT_FOUND || status == FORBIDDEN {
            Some(false)
        } else {
            None
        }),
{
    if status == NOT_FOUND || status == FORBIDDEN {
        Some(false)
    } else {
        None
    }
}

/// Whether the answer of the service names any event; an error where it is no array.
pub fn check_event_exists(payload: &Json) -> (r: Result<bool, RadarError>)
    ensures
        r is Ok == payload is Array,
        r matches Ok(any) ==> any == (payload->Array_0@.len() > 0),
        r matches Err(e) ==> e is NotAnArray,
{
    match payload {
        Json::Array(events) => Ok(events.len() > 0),
        _ => Err(RadarError::NotAnArray),
    }
}

/// The name under which the client introduces itself.
pub open spec fn agent_text() -> Seq<char> {
    "Mozilla/5.0 (Macintosh; Intel Mac OS X 10_15_7) AppleWebKit/537.36 (KHTML, like Gecko) Chrome/131.0.0.0 Safari/537.36"@
}

/// The name under which the client introduces itself.
pub fn user_agent() -> (r: &'static str)
    ensures
        r@ == agent_text(),
{
    "Mozilla/5.0 (Macintosh; Intel Mac OS X 10_15_7) AppleWebKit/537.36 (KHTML, like Gecko) Chrome/131.0.0.0 Safari/537.36"
}

/// Holder of the client that all questions to the service share.
pub struct Radar {
    built: Option<BuiltClient>,
}

impl Radar {
    /// The client with what it was set up with, once there is one.
    pub closed spec fn held(self) -> Option<BuiltClient> {
        self.built
    }

    /// A radar without a client.
    pub fn new() -> (r: Radar)
        ensures
            r.held() is None,
    {
        Radar { built: None }
    }

    /// The client with what it was set up with, once there is one.
    pub fn client(&self) -> (r: Option<&BuiltClient>)
        ensures
            r is Some == self.held() is Some,
            r matches Some(c) ==> self.held() == Some(*c),
    {
        match &self.built {
            Some(c) => Some(c),
            None => None,
        }
    }

    /// Keeps a client that was set up, unless there is one already.
    pub fn install(&mut self, built: Result<BuiltClient, reqwest::Error>) -> (r: Result<
        (),
        RadarError,
    >)
        ensures
            r is Ok == built is Ok,
            r matches Err(e) ==> built is Err && e == RadarError::Client(built->Err_0),
            final(self).held() == (if old(self).held() is None && built is Ok {
                Some(built->Ok_0)
            } else {
                old(self).held()
            }),
    {
        match built {
            Ok(client) => {
                if self.built.is_none() {
                    self.built = Some(client);
                }
                Ok(())
            },
            Err(e) => Err(RadarError::Client(e)),
        }
    }
}

/// The client introduces itself as the radar does and goes through `proxy`, if that is given.
pub open spec fn is_radar_client(client: BuiltClient, proxy: Option<Seq<char>>) -> bool {
    client.agent() == agent_text() && client.proxy() == proxy
}

/// Sets up the client of the radar, through a proxy where one is given; the first client that
/// could be set up is kept. A text that is no address of a proxy is refused, whether or not there
/// is a client already.
pub fn init_radar_client(radar: &mut Radar, proxy_url: Option<&str>) -> (r: Result<(), RadarError>)
    ensures
        r is Ok && old(radar).held() is None ==> final(radar).held() is Some && is_radar_client(
            final(radar).held()->0,
            match proxy_url {
                Some(url) => Some(url@),
                None => None,
            },
        ),
        old(radar).held() is Some ==> final(radar).held() == old(radar).held(),
        proxy_url is Some && !is_proxy_address(proxy_url->0@) ==> r is Err,
        r matches Err(e) ==> e is Client && final(radar).held() == old(radar).held(),
{
    let built = match proxy_url {
        Some(url) => match https_proxy(url) {
            Ok(proxy) => build_proxied(user_agent(), proxy),
            Err(e) => Err(e),
        },
        None => build_direct(user_agent()),
    };
    radar.install(built)
}

/// The client of the radar: the one that is held, or else one that is set up without a proxy and
/// kept.
pub fn get_client(radar: &mut Radar) -> (r: Result<&BuiltClient, RadarError>)
    ensures
        old(radar).held() is Some ==> r is Ok && final(radar).held() == old(radar).held(),
        r matches Ok(c) ==> final(radar).held() == Some(*c),
        r is Ok && old(radar).held() is None ==> is_radar_client(*r->Ok_0, None),
        r matches Err(e) ==> e is Client && final(radar).held() is None,
{
    if radar.built.is_none() {
        if let Err(e) = init_radar_client(radar, None) {
            return Err(e);
        }
    }
    Ok(radar.client().unwrap())
}

/// Every market that is listed is one of the event's, says that it is active and not closed, and
/// names its token; and every such market is listed.
pub proof fn law_exactly_the_open_markets_are_listed(markets: Seq<Json>, listing: Listing)
    ensures
        listings_of(markets).contains(listing) <==> exists|i: int|
            0 <= i < markets.len() && is_open(#[trigger] markets[i]) && listing_of(markets[i])
                == Some(listing),
    decreases markets.len(),
{
    let all = listings_of(markets);
    if markets.len() > 0 {
        let fewer = markets.drop_last();
        law_exactly_the_open_markets_are_listed(fewer, listing);
        let before = listings_of(fewer);
        let last = markets.len() - 1;
        if all.contains(listing) {
            let k = choose|k: int| 0 <= k < all.len() && all[k] == listing;
            if k < before.len() {
                assert(before[k] == listing);
                let i = choose|i: int|
                    0 <= i < fewer.len() && is_open(#[trigger] fewer[i]) && listing_of(fewer[i])
                        == Some(listing);
                assert(markets[i] == fewer[i]);
            } else {
                assert(is_open(markets[last]) && listing_of(markets[last]) == Some(listing));
            }
        }
        if exists|i: int|
            0 <= i < markets.len() && is_open(#[trigger] markets[i]) && listing_of(markets[i])
                == Some(listing) {
            let i = choose|i: int|
                0 <= i < markets.len() && is_open(#[trigger] markets[i]) && listing_of(markets[i])
                    == Some(listing);
            if i < last {
                assert(fewer[i] == markets[i]);
                assert(before.contains(listing));
                let k = choose|k: int| 0 <= k < before.len() && before[k] == listing;
                assert(all[k] == listing);
            } else {
                assert(all[before.len() as int] == listing);
            }
        }
    }
}

/// Every candidate of the five-minute radar belongs to a five-minute event that expires in one to
/// three minutes.
pub proof fn law_candidates_belong_to_events_that_expire_soon(events: Seq<Json>, now: i64, listing: Listing)
    requires
        near_listings(events, now).contains(listing),
    ensures
        exists|i: int|
            0 <= i < events.len() && is_near_expiry(#[trigger] events[i], now) && event_listings(
                events[i],
            ).contains(listing),
    decreases events.len(),
{
    let all = near_listings(events, now);
    let fewer = events.drop_last();
    let before = near_listings(fewer, now);
    let last = events.len() - 1;
    let k = choose|k: int| 0 <= k < all.len() && all[k] == listing;
    if k < before.len() {
        assert(before[k] == listing);
        law_candidates_belong_to_events_that_expire_soon(fewer, now, listing);
        let i = choose|i: int|
            0 <= i < fewer.len() && is_near_expiry(#[trigger] fewer[i], now) && event_listings(
                fewer[i],
            ).contains(listing);
        assert(events[i] == fewer[i]);
    } else {
        assert(event_listings(events[last])[k - before.len()] == listing);
    }
}

/// Of the markets that were found, exactly those are kept by the five-minute radar that expire
/// in one to three minutes.
pub proof fn law_the_radar_keeps_exactly_what_expires_soon(
    found: Seq<Found>,
    now: i64,
    market: Found,
)
    ensures
        expiring_soon(found, now).contains(market) <==> found.contains(market) && is_soon(
            market.expiry_timestamp,
            now,
        ),
    decreases found.len(),
{
    let kept = expiring_soon(found, now);
    if found.len() > 0 {
        let fewer = found.drop_last();
        let before = expiring_soon(fewer, now);
        law_the_radar_keeps_exactly_what_expires_soon(fewer, now, market);
        if kept.contains(market) {
            let k = choose|k: int| 0 <= k < kept.len() && kept[k] == market;
            if k < before.len() {
                assert(before[k] == market);
                let i = choose|i: int| 0 <= i < fewer.len() && fewer[i] == market;
                assert(found[i] == market);
            } else {
                assert(found[found.len() - 1] == market);
            }
        }
        if found.contains(market) && is_soon(market.expiry_timestamp, now) {
            let i = choose|i: int| 0 <= i < found.len() && found[i] == market;
            if i < fewer.len() {
                assert(fewer[i] == market);
                let k = choose|k: int| 0 <= k < before.len() && before[k] == market;
                assert(kept[k] == market);
            } else {
                assert(kept[before.len() as int] == market);
            }
        }
    }
}

/// Only a full page of a hundred events has one behind it, a hundred events on.
pub proof fn law_only_a_full_page_has_another_behind_it(count: u64, offset: u32)
    requires
        offset + 100 <= u32::MAX,
    ensures
        count >= 100 ==> page_behind(count, offset) == Some((offset + 100) as u32),
        count < 100 ==> page_behind(count, offset) is None,
{
}

/// The strike that a market gives as a number goes before the one that it gives as a text, and
/// that one before the number in its title; there is none only where all three are missing.
pub proof fn law_the_line_goes_before_the_title(
    line: Option<Scalar>,
    parsed_line: Option<Scalar>,
    parsed_title: Option<Scalar>,
)
    ensures
        line is Some ==> first_strike(line, parsed_line, parsed_title) == line,
        line is None && parsed_line is Some ==> first_strike(line, parsed_line, parsed_title)
            == parsed_line,
        line is None && parsed_line is None ==> first_strike(line, parsed_line, parsed_title)
            == parsed_title,
{
}

/// A strike above ten and below a thousand is given in thousands, any other in dollars.
pub proof fn law_a_strike_between_ten_and_a_thousand_is_in_thousands(
    strike: Scalar,
    thousandfold: Scalar,
)
    ensures
        ({
            let ten = Scalar::of(0x4024_0000_0000_0000);
            let thousand = Scalar::of(0x408f_4000_0000_0000);
            &&& ten.below(strike) && strike.below(thousand) ==> dollars(strike, thousandfold)
                == thousandfold
            &&& strike.at_most(ten) || thousand.at_most(strike) || !strike.is_number()
                ==> dollars(strike, thousandfold) == strike
        }),
{
}

/// A slug that ends in a hyphen and ten digits, or is ten digits, tells the second that they stand
/// for; one whose last part has another length, or holds anything but digits, tells none.
pub proof fn law_a_slug_tells_its_expiry(front: Seq<char>, last: Seq<char>)
    requires
        forall|i: int| 0 <= i < last.len() ==> last[i] != '-',
    ensures
        ({
            let told = last.len() == 10 && forall|i: int|
                0 <= i < last.len() ==> '0' <= #[trigger] last[i] <= '9';
            &&& told ==> slug_expiry(front.push('-') + last) == Some(number_of(last) as i64)
                && slug_expiry(last) == Some(number_of(last) as i64)
            &&& !told ==> slug_expiry(front.push('-') + last) is None && slug_expiry(last) is None
        }),
{
    law_the_last_part_stands_behind_the_last_separator(front, last, '-');
    assert(all_digits(last) <==> forall|i: int|
        0 <= i < last.len() ==> '0' <= #[trigger] last[i] <= '9') by {
        if all_digits(last) {
            assert forall|i: int| 0 <= i < last.len() implies '0' <= #[trigger] last[i] <= '9' by {
                assert(is_digit(last[i]));
            }
        }
    }
}

proof fn lemma_number_start(text: Seq<char>, from: int, at: int)
    requires
        0 <= from <= at <= text.len(),
        forall|i: int| from <= i < at ==> !starts_number(#[trigger] text[i]),
        at < text.len() ==> starts_number(text[at]),
    ensures
        number_start(text, from) == at,
    decreases at - from,
{
    if from < at {
        lemma_number_start(text, from + 1, at);
    }
}

proof fn lemma_number_end(text: Seq<char>, from: int, at: int)
    requires
        0 <= from <= at <= text.len(),
        forall|i: int| from <= i < at ==> continues_number(#[trigger] text[i]),
        at < text.len() ==> !continues_number(text[at]),
    ensures
        number_end(text, from) == at,
    decreases at - from,
{
    if from < at {
        lemma_number_end(text, from + 1, at);
    }
}

/// The number in a text is its first digit, point or hyphen with all the digits and points that
/// follow it at once, unless that is a point or a hyphen alone; a text without any of these holds
/// none.
pub proof fn law_the_first_number_in_a_text(
    front: Seq<char>,
    first: char,
    rest: Seq<char>,
    back: Seq<char>,
)
    requires
        forall|i: int|
            0 <= i < front.len() ==> !('0' <= #[trigger] front[i] <= '9') && front[i] != '.'
                && front[i] != '-',
        ('0' <= first <= '9') || first == '.' || first == '-',
        forall|i: int| 0 <= i < rest.len() ==> ('0' <= #[trigger] rest[i] <= '9') || rest[i] == '.',
        back.len() > 0 ==> !('0' <= back[0] <= '9') && back[0] != '.',
    ensures
        number_text(front) is None,
        ({
            let found = number_text(front.push(first) + rest + back);
            if rest.len() == 0 && (first == '.' || first == '-') {
                found is None
            } else {
                found == Some(seq![first] + rest)
            }
        }),
{
    lemma_number_start(front, 0, front.len() as int);
    let text = front.push(first) + rest + back;
    let start = front.len() as int;
    let end = start + 1 + rest.len();
    assert forall|i: int| 0 <= i < start implies !starts_number(#[trigger] text[i]) by {
        assert(text[i] == front[i]);
    }
    assert(text[start] == first);
    lemma_number_start(text, 0, start);
    assert forall|i: int| start + 1 <= i < end implies continues_number(#[trigger] text[i]) by {
        assert(text[i] == rest[i - start - 1]);
    }
    if back.len() > 0 {
        assert(text[end] == back[0]);
    }
    lemma_number_end(text, start + 1, end);
    let part = text.subrange(start, end);
    assert(part =~= seq![first] + rest);
    assert(part[0] == first);
    assert(part.len() == 1 + rest.len());
    if rest.len() == 0 {
        assert(part =~= seq![first]);
        assert(seq!['-'][0] == '-' && seq!['.'][0] == '.');
    } else {
        assert(seq!['-'].len() == 1 && seq!['.'].len() == 1);
    }
}

/// A market is listed exactly where it says that it is active and that it is not closed, and names
/// a token: under that token, with its line as the number or the text that it is, the number in
/// its title, and its end date.
pub proof fn law_a_market_is_listed_as_it_says(market: Json)
    ensures
        ({
            let listing = listing_of(market);
            let active = market.field("active"@);
            let closed = market.field("closed"@);
            let line = market.field("line"@);
            let title = market.field("groupItemTitle"@);
            let date = market.field("endDate"@);
            &&& listing is Some <==> active == Some(Json::Bool(true)) && closed == Some(
                Json::Bool(false),
            ) && yes_token(market) is Some
            &&& listing is Some ==> {
                &&& listing->0.token == yes_token(market)->0
                &&& line matches Some(Json::Number(n)) ==> listing->0.line_number == Some(n)
                &&& !(line matches Some(Json::Number(n))) ==> listing->0.line_number is None
                &&& line matches Some(Json::Text(t)) ==> listing->0.line_text == Some(t@)
                &&& !(line matches Some(Json::Text(t))) ==> listing->0.line_text is None
                &&& title matches Some(Json::Text(t)) ==> listing->0.title_number == number_text(
                    t@,
                )
                &&& !(title matches Some(Json::Text(t))) ==> listing->0.title_number is None
                &&& date matches Some(Json::Text(t)) ==> listing->0.end_date == Some(t@)
                &&& !(date matches Some(Json::Text(t))) ==> listing->0.end_date is None
            }
        }),
{
}

/// The token of the yes outcome is the first id of the array in its member, or of the array whose
/// text is in there; there is none where that is missing, empty or no text.
pub proof fn law_the_first_id_is_the_yes_token(market: Json)
    ensures
        ({
            let ids = market.field("clobTokenIds"@);
            &&& ids is None ==> yes_token(market) is None
            &&& ids matches Some(Json::Array(list)) ==> {
                &&& list@.len() == 0 ==> yes_token(market) is None
                &&& list@.len() > 0 && list@[0] is Text ==> yes_token(market) == Some(
                    list@[0]->Text_0@,
                )
                &&& list@.len() > 0 && !(list@[0] is Text) ==> yes_token(market) is None
            }
            &&& ids matches Some(Json::Text(raw)) ==> {
                &&& json_texts(raw@) is None ==> yes_token(market) is None
                &&& json_texts(raw@) is Some && json_texts(raw@)->0.len() == 0 ==> yes_token(market)
                    is None
                &&& json_texts(raw@) is Some && json_texts(raw@)->0.len() > 0 ==> yes_token(market)
                    == json_texts(raw@)->0[0]
            }
            &&& !(ids matches Some(Json::Array(list))) && !(ids matches Some(Json::Text(raw)))
                ==> yes_token(market) is None
        }),
{
}

/// The markets of two lists are listed one list after the other, in their order, and so are the
/// events of two pages.
pub proof fn law_markets_are_listed_in_their_order(one: Seq<Json>, other: Seq<Json>, now: i64)
    ensures
        listings_of(one + other) == listings_of(one) + listings_of(other),
        all_listings(one + other) == all_listings(one) + all_listings(other),
        near_listings(one + other, now) == near_listings(one, now) + near_listings(other, now),
    decreases other.len(),
{
    if other.len() == 0 {
        assert(one + other =~= one);
        assert(listings_of(one) + listings_of(other) =~= listings_of(one));
        assert(all_listings(one) + all_listings(other) =~= all_listings(one));
        assert(near_listings(one, now) + near_listings(other, now) =~= near_listings(one, now));
    } else {
        let fewer = other.drop_last();
        law_markets_are_listed_in_their_order(one, fewer, now);
        assert((one + other).drop_last() =~= one + fewer);
        assert((one + other).last() == other.last());
        assert(listings_of(one + other) =~= listings_of(one) + listings_of(other));
        assert(all_listings(one + other) =~= all_listings(one) + all_listings(other));
        assert(near_listings(one + other, now) =~= near_listings(one, now) + near_listings(
            other,
            now,
        ));
    }
}

/// A list of one market, or of one event, lists that market, or the markets of that event; the
/// five-minute radar does so only where the event is a five-minute event that expires soon. An
/// event without markets lists none.
pub proof fn law_each_event_lists_its_own_markets(market: Json, event: Json, now: i64)
    ensures
        listing_of(market) is Some ==> listings_of(seq![market]) == seq![listing_of(market)->0],
        listing_of(market) is None ==> listings_of(seq![market]).len() == 0,
        event.field("markets"@) matches Some(Json::Array(markets)) ==> all_listings(seq![event])
            == listings_of(markets@),
        !(event.field("markets"@) matches Some(Json::Array(markets))) ==> all_listings(
            seq![event],
        ).len() == 0,
        is_near_expiry(event, now) ==> near_listings(seq![event], now) == all_listings(seq![event]),
        !is_near_expiry(event, now) ==> near_listings(seq![event], now).len() == 0,
{
    reveal_with_fuel(listings_of, 2);
    reveal_with_fuel(all_listings, 2);
    reveal_with_fuel(near_listings, 2);
    let none = Seq::<Json>::empty();
    assert(seq![market].drop_last() =~= none);
    assert(seq![event].drop_last() =~= none);
    assert(all_listings(none) + event_listings(event) =~= event_listings(event));
    assert(near_listings(none, now) + event_listings(event) =~= event_listings(event));
    if listing_of(market) is Some {
        assert(listings_of(seq![market]) =~= seq![listing_of(market)->0]);
    }
}

/// A five-minute event is near its expiry from three minutes before it to one minute before it.
/// It expires at the second that its slug tells, and only where the slug tells none at its end
/// date; an event of another name, or without either, is never near.
pub proof fn law_a_five_minute_event_is_near_for_two_minutes(event: Json, now: i64)
    ensures
        ({
            let slug = event.field("slug"@);
            let date = event.field("endDate"@);
            let near = is_near_expiry(event, now);
            &&& !(slug matches Some(Json::Text(t))) ==> !near
            &&& slug matches Some(Json::Text(t)) ==> {
                &&& !occurs_in(t@, "updown-5m"@) ==> !near
                &&& occurs_in(t@, "updown-5m"@) && slug_expiry(t@) is Some ==> (near <==> now + 60
                    <= slug_expiry(t@)->0 <= now + 180)
                &&& slug_expiry(t@) is None && !(date matches Some(Json::Text(d))) ==> !near
                &&& occurs_in(t@, "updown-5m"@) && slug_expiry(t@) is None ==> (
                date matches Some(Json::Text(d)) ==> (near <==> rfc3339_timestamp(d@) is Some && now
                    + 60 <= rfc3339_timestamp(d@)->0 <= now + 180))
            }
        }),
{
}

/// A second is near from one minute to three minutes ahead.
pub proof fn law_near_is_one_to_three_minutes_ahead(t: i64, now: i64)
    ensures
        is_soon(t, now) <==> 60 <= t - now <= 180,
{
}

/// A candidate with a strike and a date that can be read comes to a market with its token, its
/// strike and the second of that date, behind those of the candidates before it; one without a
/// strike or a date comes to none, and a date that cannot be read ends the search without markets.
pub proof fn law_a_candidate_comes_to_its_market(
    listings: Seq<Listing>,
    strikes: Seq<Option<Scalar>>,
    listing: Listing,
    strike: Option<Scalar>,
)
    requires
        listings.len() == strikes.len(),
    ensures
        ({
            let before = markets_found(listings, strikes);
            let after = markets_found(listings.push(listing), strikes.push(strike));
            &&& listings.len() == 0 ==> before == Some(Seq::<Found>::empty())
            &&& before is None ==> after is None
            &&& before is Some && (strike is None || listing.end_date is None) ==> after == before
            &&& before is Some && strike is Some && listing.end_date is Some ==> {
                let t = rfc3339_timestamp(listing.end_date->0);
                &&& t is None ==> after is None
                &&& t is Some ==> after is Some && after->0 == before->0.push(
                    (Found {
                        token: listing.token,
                        strike_price: strike->0,
                        expiry_timestamp: t->0,
                    }),
                )
            }
        }),
{
    assert(listings.push(listing).drop_last() =~= listings);
    assert(strikes.push(strike).drop_last() =~= strikes);
}

/// The markets of two lists that expire soon are kept one list after the other, in their order.
pub proof fn law_markets_are_kept_in_their_order(one: Seq<Found>, other: Seq<Found>, now: i64)
    ensures
        expiring_soon(one + other, now) == expiring_soon(one, now) + expiring_soon(other, now),
    decreases other.len(),
{
    if other.len() == 0 {
        assert(one + other =~= one);
        assert(expiring_soon(one, now) + expiring_soon(other, now) =~= expiring_soon(one, now));
    } else {
        law_markets_are_kept_in_their_order(one, other.drop_last(), now);
        assert((one + other).drop_last() =~= one + other.drop_last());
        assert((one + other).last() == other.last());
        assert(expiring_soon(one + other, now) =~= expiring_soon(one, now) + expiring_soon(
            other,
            now,
        ));
    }
}

} // verus!
