//! Modbus register values, register addressing and `modbus+tcp` URLs.

use vstd::prelude::*;
use vstd::string::{StrSliceExecFns, StringExecFns};

use crate::text::{decimal, decimal_text};

verus! {

/// Type of the value stored in a register.
#[derive(Clone, Copy, PartialEq, Eq, Structural, Debug)]
pub enum DataType {
    U16,
    I32,
    U64,
}

impl DataType {
    /// Number of 16-bit words that a value of the type occupies.
    pub open spec fn spec_num_words(self) -> u16 {
        match self {
            DataType::U16 => 1,
            DataType::I32 => 2,
            DataType::U64 => 4,
        }
    }

    /// Number of 16-bit words that a value of the type occupies.
    pub fn num_words(self) -> (n: u16)
        ensures
            n == self.spec_num_words(),
    {
        match self {
            DataType::U16 => 1,
            DataType::I32 => 2,
            DataType::U64 => 4,
        }
    }

    /// Decode the value from big-endian words (most significant word first).
    pub fn decode(self, words: &[u16]) -> (value: Value)
        requires
            words@.len() >= self.spec_num_words(),
        ensures
            value == spec_decode(self, words@),
    {
        match self {
            DataType::U16 => Value::U16(words[0]),
            DataType::I32 => Value::I32(words_to_i32(words[0], words[1])),
            DataType::U64 => {
                let value = (words[0] as u64) * 0x1_0000_0000_0000u64 + (words[1] as u64)
                    * 0x1_0000_0000u64 + (words[2] as u64) * 0x1_0000u64 + (words[3] as u64);
                Value::U64(value)
            },
        }
    }
}

impl Default for DataType {
    /// A register holds a `u16` unless the URL says otherwise.
    fn default() -> (data_type: DataType)
        ensures
            data_type == DataType::U16,
    {
        DataType::U16
    }
}

/// Value read from registers.
#[derive(Clone, Copy, PartialEq, Eq, Structural, Debug)]
pub enum Value {
    U16(u16),
    I32(i32),
    U64(u64),
}

/// Unsigned big-endian number of two words.
pub open spec fn spec_u32_of_words(high: u16, low: u16) -> int {
    high * 0x1_0000 + low
}

/// Two's-complement reading of an unsigned 32-bit number.
pub open spec fn spec_i32_of_u32(unsigned: int) -> int {
    if unsigned < 0x8000_0000 {
        unsigned
    } else {
        unsigned - 0x1_0000_0000
    }
}

/// The value that big-endian words hold.
pub open spec fn spec_decode(data_type: DataType, words: Seq<u16>) -> Value {
    match data_type {
        DataType::U16 => Value::U16(words[0]),
        DataType::I32 => Value::I32(spec_i32_of_u32(spec_u32_of_words(words[0], words[1])) as i32),
        DataType::U64 => Value::U64(
            (words[0] * 0x1_0000_0000_0000 + words[1] * 0x1_0000_0000 + words[2] * 0x1_0000
                + words[3]) as u64,
        ),
    }
}

/// Signed 32-bit number of two big-endian words.
pub fn words_to_i32(high: u16, low: u16) -> (value: i32)
    ensures
        value == spec_i32_of_u32(spec_u32_of_words(high, low)),
{
    let unsigned: u32 = (high as u32) * 0x1_0000u32 + (low as u32);
    if unsigned < 0x8000_0000u32 {
        unsigned as i32
    } else {
        let magnitude: u32 = 0xFFFF_FFFFu32 - unsigned;
        -(magnitude as i32) - 1
    }
}

/// A register read returned an unexpected number of words.
#[derive(Clone, Copy, PartialEq, Eq, Structural, Debug)]
pub struct WordCountMismatch {
    pub expected: u16,
    pub actual: usize,
}

/// Check that a read returned the expected number of words.
pub fn check_word_count(words: &[u16], expected: u16) -> (result: Result<(), WordCountMismatch>)
    ensures
        result is Ok <==> words@.len() == expected,
        result matches Err(error) ==> error == (WordCountMismatch {
            expected,
            actual: words@.len() as usize,
        }),
{
    if words.len() == expected as usize {
        Ok(())
    } else {
        Err(WordCountMismatch { expected, actual: words.len() })
    }
}

/// Signed 32-bit number of exactly two big-endian words.
pub fn i32_from_words(words: &[u16]) -> (result: Result<i32, WordCountMismatch>)
    ensures
        result is Ok <==> words@.len() == 2,
        result matches Ok(value) ==> value == spec_i32_of_u32(
            spec_u32_of_words(words@[0], words@[1]),
        ),
        result matches Err(error) ==> error == (WordCountMismatch {
            expected: 2,
            actual: words@.len() as usize,
        }),
{
    if words.len() == 2 {
        Ok(words_to_i32(words[0], words[1]))
    } else {
        Err(WordCountMismatch { expected: 2, actual: words.len() })
    }
}

/// The first word of a read, if any.
pub fn first_word(words: &[u16]) -> (word: Option<u16>)
    ensures
        words@.len() == 0 ==> word is None,
        words@.len() > 0 ==> word == Some(words@[0]),
{
    if words.len() == 0 {
        None
    } else {
        Some(words[0])
    }
}

/// Value does not fit into the target type.
#[derive(Clone, Copy, PartialEq, Eq, Structural, Debug)]
pub struct OutOfRange;

impl Value {
    /// The value as a mathematical integer.
    pub open spec fn spec_int(self) -> int {
        match self {
            Value::U16(value) => value as int,
            Value::I32(value) => value as int,
            Value::U64(value) => value as int,
        }
    }

    /// Convert the value into `u16`: fails when it is out of the `u16` range.
    pub fn to_u16(self) -> (result: Result<u16, OutOfRange>)
        ensures
            (0 <= self.spec_int() <= u16::MAX) <==> result is Ok,
            result matches Ok(value) ==> value as int == self.spec_int(),
    {
        match self {
            Value::U16(value) => Ok(value),
            Value::I32(value) => if 0 <= value && value <= u16::MAX as i32 {
                Ok(value as u16)
            } else {
                Err(OutOfRange)
            },
            Value::U64(value) => if value <= u16::MAX as u64 {
                Ok(value as u16)
            } else {
                Err(OutOfRange)
            },
        }
    }
}

/// Two's-complement decoding of two words agrees with the register's big-endian byte layout:
/// the value is negative exactly when the top bit of the high word is set, and encoding it back
/// gives the same words.
pub proof fn lemma_i32_words_round_trip(high: u16, low: u16)
    ensures
        (spec_i32_of_u32(spec_u32_of_words(high, low)) < 0) <==> high >= 0x8000,
        ({
            let value = spec_i32_of_u32(spec_u32_of_words(high, low));
            let unsigned = if value < 0 {
                value + 0x1_0000_0000
            } else {
                value
            };
            unsigned / 0x1_0000 == high && unsigned % 0x1_0000 == low
        }),
{
}

/// Register kind.
#[derive(Clone, Copy, PartialEq, Eq, Structural, Debug)]
pub enum Operation {
    Input,
    Holding,
}

/// The address does not tell the register kind.
#[derive(Clone, Copy, PartialEq, Eq, Structural, Debug)]
pub struct UnknownRegisterKind {
    pub address: u16,
}

impl Operation {
    /// Register kind by the conventional address ranges: `30000..=39999` are input registers
    /// and `40000..=49999` are holding registers.
    pub fn try_from_address(address: u16) -> (result: Result<Operation, UnknownRegisterKind>)
        ensures
            result == (if 30000 <= address <= 39999 {
                Ok(Operation::Input)
            } else if 40000 <= address <= 49999 {
                Ok(Operation::Holding)
            } else {
                Err(UnknownRegisterKind { address })
            }),
    {
        if 30000 <= address && address <= 39999 {
            Ok(Operation::Input)
        } else if 40000 <= address && address <= 49999 {
            Ok(Operation::Holding)
        } else {
            Err(UnknownRegisterKind { address })
        }
    }
}

/// The character is an ASCII decimal digit.
pub open spec fn is_decimal_digit(c: char) -> bool {
    '0' <= c <= '9'
}

/// Value of a string of decimal digits.
pub open spec fn digits_value(digits: Seq<char>) -> int
    decreases digits.len(),
{
    if digits.len() == 0 {
        0
    } else {
        digits_value(digits.drop_last()) * 10 + (digits.last() as int - '0' as int)
    }
}

/// The text without its leading `+`, if any.
pub open spec fn unsigned_digits(text: Seq<char>) -> Seq<char> {
    if text.len() > 0 && text[0] == '+' {
        text.drop_first()
    } else {
        text
    }
}

/// Every character is a decimal digit.
pub open spec fn all_decimal_digits(digits: Seq<char>) -> bool {
    forall|i: int| 0 <= i < digits.len() ==> is_decimal_digit(#[trigger] digits[i])
}

/// Rust's parsing of an unsigned integer: an optional `+`, then one or more decimal digits.
pub open spec fn spec_parse_unsigned(text: Seq<char>) -> Option<int> {
    let digits = unsigned_digits(text);
    if digits.len() > 0 && all_decimal_digits(digits) {
        Some(digits_value(digits))
    } else {
        None
    }
}

/// The value of digits only grows when more digits follow.
proof fn lemma_digits_value_grows(digits: Seq<char>, k: int)
    requires
        0 <= k <= digits.len(),
        forall|i: int| 0 <= i < digits.len() ==> is_decimal_digit(#[trigger] digits[i]),
    ensures
        0 <= digits_value(digits.take(k)) <= digits_value(digits),
    decreases digits.len(),
{
    if digits.len() > 0 {
        let prefix = digits.drop_last();
        if k == digits.len() {
            assert(digits.take(k) == digits);
            lemma_digits_value_grows(prefix, prefix.len() as int);
            assert(prefix.take(prefix.len() as int) == prefix);
        } else {
            assert(prefix.take(k) == digits.take(k));
            lemma_digits_value_grows(prefix, k);
        }
    } else {
        assert(digits.take(k) == digits);
    }
}

/// Parse an unsigned integer no greater than `max` the way Rust's `str::parse` does.
pub fn parse_unsigned(text: &str, max: u32) -> (result: Option<u32>)
    ensures
        result matches Some(value) ==> spec_parse_unsigned(text@) == Some(value as int) && value
            <= max,
        result is None ==> !(spec_parse_unsigned(text@) matches Some(value) && value <= max),
{
    let n = text.unicode_len();
    let mut start: usize = 0;
    if n > 0 && text.get_char(0) == '+' {
        start = 1;
    }
    let ghost digits = unsigned_digits(text@);
    if start == n {
        return None;
    }
    let mut value: u32 = 0;
    let mut i = start;
    while i < n
        invariant
            n == text@.len(),
            start <= i <= n,
            start < n,
            digits == text@.subrange(start as int, n as int),
            digits == unsigned_digits(text@),
            forall|k: int| 0 <= k < i - start ==> is_decimal_digit(#[trigger] digits[k]),
            value == digits_value(digits.take(i - start)),
            value <= max,
        decreases n - i,
    {
        let c = text.get_char(i);
        assert(digits[i - start] == c);
        if !('0' <= c && c <= '9') {
            assert(!is_decimal_digit(digits[i - start]));
            assert(spec_parse_unsigned(text@) is None);
            return None;
        }
        let digit = (c as u32) - ('0' as u32);
        assert(digits.take(i + 1 - start).drop_last() == digits.take(i - start));
        assert(digits.take(i + 1 - start).last() == c);
        let next: u64 = (value as u64) * 10 + (digit as u64);
        if next > max as u64 {
            proof {
                if all_decimal_digits(digits) {
                    lemma_digits_value_grows(digits, i + 1 - start);
                    assert(spec_parse_unsigned(text@) == Some(digits_value(digits)));
                } else {
                    assert(spec_parse_unsigned(text@) is None);
                }
            }
            return None;
        }
        value = next as u32;
        i = i + 1;
    }
    assert(digits.take(n - start) == digits);
    Some(value)
}

/// ASCII letters in lower case; other characters unchanged.
pub open spec fn ascii_lowercase(c: char) -> char {
    if 'A' <= c <= 'Z' {
        ((c as u32) + 32) as char
    } else {
        c
    }
}

/// `text` is `word` up to the case of ASCII letters.
pub open spec fn equals_ignoring_ascii_case(text: Seq<char>, word: Seq<char>) -> bool {
    text.len() == word.len() && forall|i: int|
        0 <= i < text.len() ==> ascii_lowercase(#[trigger] text[i]) == word[i]
}

/// `text` is the lower-case `word` up to the case of ASCII letters.
fn matches_ignoring_ascii_case(text: &str, word: &str) -> (result: bool)
    ensures
        result == equals_ignoring_ascii_case(text@, word@),
{
    let n = text.unicode_len();
    if n != word.unicode_len() {
        return false;
    }
    for i in 0..n
        invariant
            n == text@.len(),
            n == word@.len(),
            forall|k: int| 0 <= k < i ==> ascii_lowercase(#[trigger] text@[k]) == word@[k],
    {
        let c = text.get_char(i);
        let expected = word.get_char(i);
        let lowered_matches = if 'A' <= c && c <= 'Z' {
            (c as u32) + 32 == (expected as u32)
        } else {
            c == expected
        };
        if !lowered_matches {
            assert(ascii_lowercase(text@[i as int]) != word@[i as int]);
            return false;
        }
    }
    true
}

/// The register kind by its name, in any letter case: `input` or `holding`.
pub open spec fn spec_parse_operation(text: Seq<char>) -> Option<Operation> {
    if equals_ignoring_ascii_case(text, "input"@) {
        Some(Operation::Input)
    } else if equals_ignoring_ascii_case(text, "holding"@) {
        Some(Operation::Holding)
    } else {
        None
    }
}

impl Operation {
    /// Parse the register kind by its name, in any letter case: `input` or `holding`.
    pub fn parse(text: &str) -> (operation: Option<Operation>)
        ensures
            operation == spec_parse_operation(text@),
    {
        if matches_ignoring_ascii_case(text, "input") {
            Some(Operation::Input)
        } else if matches_ignoring_ascii_case(text, "holding") {
            Some(Operation::Holding)
        } else {
            None
        }
    }
}

/// Parts of a URL, as the `url` crate parses them.
pub struct UrlComponents {
    pub scheme: String,
    pub host: Option<String>,
    pub port: Option<u16>,
    pub path_segments: Vec<String>,
    pub fragment: Option<String>,
    pub query: Option<String>,
}

/// Parts of a URL, as text.
pub struct UrlComponentsView {
    pub scheme: Seq<char>,
    pub host: Option<Seq<char>>,
    pub port: Option<u16>,
    pub path_segments: Seq<Seq<char>>,
    pub fragment: Option<Seq<char>>,
    pub query: Option<Seq<char>>,
}

/// The text of an optional string.
pub open spec fn option_text(text: Option<String>) -> Option<Seq<char>> {
    match text {
        Some(text) => Some(text@),
        None => None,
    }
}

impl View for UrlComponents {
    type V = UrlComponentsView;

    open spec fn view(&self) -> UrlComponentsView {
        UrlComponentsView {
            scheme: self.scheme@,
            host: option_text(self.host),
            port: self.port,
            path_segments: self.path_segments@.map_values(|segment: String| segment@),
            fragment: option_text(self.fragment),
            query: option_text(self.query),
        }
    }
}

/// The parts of the URL that `url::Url::parse` reads from the text, if it accepts it.
pub uninterp spec fn parsed_url(text: Seq<char>) -> Option<UrlComponentsView>;

/// Parses the text with `url::Url::parse` and reads its scheme, host (the domain, or the IP
/// address in its usual text, an IPv6 address without brackets), port, path segments, fragment
/// and query.
///
/// Claimed: the result is a function of the text alone, named `parsed_url`; nothing is claimed
/// about which texts the `url` crate accepts or what their parts are.
#[verifier::external_body]
fn parse_url_components(text: &str) -> (components: Option<UrlComponents>)
    ensures
        components matches Some(components) ==> parsed_url(text@) == Some(components@),
        components is None ==> parsed_url(text@) is None,
{
    let url = url::Url::parse(text).ok()?;
    let host = match url.host() {
        Some(url::Host::Domain(domain)) => Some(domain.into()),
        Some(url::Host::Ipv4(address)) => Some(address.to_string()),
        Some(url::Host::Ipv6(address)) => Some(address.to_string()),
        None => None,
    };
    let path_segments = url.path_segments().into_iter().flatten().map(String::from).collect();
    let (fragment, query) = (url.fragment().map(String::from), url.query().map(String::from));
    Some(UrlComponents { scheme: url.scheme().into(), host, port: url.port(), path_segments, fragment, query })
}

impl UrlComponents {
    /// Parse the URL.
    pub fn parse(text: &str) -> (components: Option<UrlComponents>)
        ensures
            components matches Some(components) ==> parsed_url(text@) == Some(components@),
            components is None ==> parsed_url(text@) is None,
    {
        parse_url_components(text)
    }
}

/// Modbus slave connection endpoint.
#[derive(Clone, PartialEq, Eq, Debug)]
pub struct Endpoint {
    pub host: String,
    pub port: u16,
    pub slave_id: u8,
}

/// Register value options.
#[derive(Clone, Copy, PartialEq, Eq, Structural, Debug)]
pub struct Options {
    pub data_type: DataType,
}

impl Default for Options {
    /// The default value options: a `u16` value.
    fn default() -> (options: Options)
        ensures
            options.data_type == DataType::U16,
    {
        Options { data_type: DataType::default() }
    }
}

/// Register address, kind and value options.
#[derive(Clone, Copy, PartialEq, Eq, Structural, Debug)]
pub struct Register {
    pub address: u16,
    pub operation: Operation,
    pub options: Options,
}

/// Register reachable by a `modbus+tcp://host:port/slave-id/address#kind` URL.
#[derive(Clone, Debug)]
pub struct ParsedUrl {
    pub endpoint: Endpoint,
    pub register: Register,
}

/// A parsed URL, as values.
pub struct ParsedUrlView {
    pub host: Seq<char>,
    pub port: u16,
    pub slave_id: u8,
    pub register: Register,
}

impl View for ParsedUrl {
    type V = ParsedUrlView;

    open spec fn view(&self) -> ParsedUrlView {
        ParsedUrlView {
            host: self.endpoint.host@,
            port: self.endpoint.port,
            slave_id: self.endpoint.slave_id,
            register: self.register,
        }
    }
}

/// Reasons a Modbus URL is refused.
#[derive(Clone, Copy, PartialEq, Eq, Structural, Debug)]
pub enum ModbusUrlError {
    /// The text is not a URL.
    InvalidUrl,
    /// Only the `modbus+tcp` scheme is supported.
    UnsupportedScheme,
    /// The URL has no host.
    MissingHost,
    /// The first path segment, the slave ID, is missing.
    MissingSlaveId,
    /// The slave ID is not a number from 0 to 255.
    InvalidSlaveId,
    /// The second path segment, the register address, is missing.
    MissingAddress,
    /// The register address is not a number from 0 to 65535.
    InvalidAddress,
    /// The fragment names no register kind.
    InvalidOperation,
    /// Without a fragment, the address does not tell the register kind.
    UnknownRegisterKind(u16),
}

/// Human-readable text of a refusal.
pub open spec fn url_error_text(error: ModbusUrlError, url: Seq<char>) -> Seq<char> {
    match error {
        ModbusUrlError::InvalidUrl => "`"@ + url + "` is an invalid URL"@,
        ModbusUrlError::UnsupportedScheme => "only `modbus+tcp` scheme is currently supported"@,
        ModbusUrlError::MissingHost => "the URL must contain host"@,
        ModbusUrlError::MissingSlaveId => "slave ID must be specified in the first segment"@,
        ModbusUrlError::InvalidSlaveId => "incorrect slave ID"@,
        ModbusUrlError::MissingAddress => "register address must be specified in the second segment"@,
        ModbusUrlError::InvalidAddress => "incorrect register address"@,
        ModbusUrlError::InvalidOperation => "Invalid `Operation` string representation"@,
        ModbusUrlError::UnknownRegisterKind(address) => "cannot determine register #"@
            + decimal_text(address as int) + " type – specify explicitly"@,
    }
}

impl ModbusUrlError {
    /// Human-readable text of the refusal of the URL.
    pub fn describe(&self, url: &str) -> (text: String)
        ensures
            text@ == url_error_text(*self, url@),
    {
        match self {
            ModbusUrlError::InvalidUrl => {
                let mut text = String::from_str("`");
                text.append(url);
                text.append("` is an invalid URL");
                text
            },
            ModbusUrlError::UnsupportedScheme => String::from_str(
                "only `modbus+tcp` scheme is currently supported",
            ),
            ModbusUrlError::MissingHost => String::from_str("the URL must contain host"),
            ModbusUrlError::MissingSlaveId => String::from_str(
                "slave ID must be specified in the first segment",
            ),
            ModbusUrlError::InvalidSlaveId => String::from_str("incorrect slave ID"),
            ModbusUrlError::MissingAddress => String::from_str(
                "register address must be specified in the second segment",
            ),
            ModbusUrlError::InvalidAddress => String::from_str("incorrect register address"),
            ModbusUrlError::InvalidOperation => String::from_str(
                "Invalid `Operation` string representation",
            ),
            ModbusUrlError::UnknownRegisterKind(address) => {
                let mut text = String::from_str("cannot determine register #");
                let number = decimal(*address as i64);
                text.append(number.as_str());
                text.append(" type – specify explicitly");
                text
            },
        }
    }
}

/// Default Modbus TCP port.
pub const DEFAULT_PORT: u16 = 502u16;

/// The number in the text, if it is at most `max`.
pub open spec fn parsed_at_most(text: Seq<char>, max: int) -> Option<int> {
    match spec_parse_unsigned(text) {
        Some(value) => if value <= max {
            Some(value)
        } else {
            None
        },
        None => None,
    }
}

/// Register kind implied by the address.
pub open spec fn spec_operation_of_address(address: u16) -> Result<Operation, ModbusUrlError> {
    if 30000 <= address <= 39999 {
        Ok(Operation::Input)
    } else if 40000 <= address <= 49999 {
        Ok(Operation::Holding)
    } else {
        Err(ModbusUrlError::UnknownRegisterKind(address))
    }
}

/// The register a URL addresses, with the given value options, or why the URL is refused.
pub open spec fn spec_from_components(
    components: UrlComponentsView,
    options: Options,
) -> Result<ParsedUrlView, ModbusUrlError> {
    let segments = components.path_segments;
    if components.scheme != "modbus+tcp"@ {
        Err(ModbusUrlError::UnsupportedScheme)
    } else if components.host is None {
        Err(ModbusUrlError::MissingHost)
    } else if segments.len() < 1 {
        Err(ModbusUrlError::MissingSlaveId)
    } else if parsed_at_most(segments[0], 255) is None {
        Err(ModbusUrlError::InvalidSlaveId)
    } else if segments.len() < 2 {
        Err(ModbusUrlError::MissingAddress)
    } else if parsed_at_most(segments[1], 65535) is None {
        Err(ModbusUrlError::InvalidAddress)
    } else {
        let slave_id = parsed_at_most(segments[0], 255)->0 as u8;
        let address = parsed_at_most(segments[1], 65535)->0 as u16;
        let operation = match components.fragment {
            Some(fragment) => match spec_parse_operation(fragment) {
                Some(operation) => Ok(operation),
                None => Err(ModbusUrlError::InvalidOperation),
            },
            None => spec_operation_of_address(address),
        };
        match operation {
            Ok(operation) => Ok(
                ParsedUrlView {
                    host: components.host->0,
                    port: match components.port {
                        Some(port) => port,
                        None => DEFAULT_PORT,
                    },
                    slave_id,
                    register: Register { address, operation, options },
                },
            ),
            Err(error) => Err(error),
        }
    }
}

impl ParsedUrl {
    /// The register that the URL parts address, with the given value options.
    pub fn from_components(components: &UrlComponents, options: Options) -> (result: Result<
        ParsedUrl,
        ModbusUrlError,
    >)
        ensures
            match result {
                Ok(parsed) => spec_from_components(components@, options) == Ok::<
                    ParsedUrlView,
                    ModbusUrlError,
                >(parsed@),
                Err(error) => spec_from_components(components@, options) == Err::<
                    ParsedUrlView,
                    ModbusUrlError,
                >(error),
            },
    {
        let expected_scheme = String::from_str("modbus+tcp");
        if components.scheme != expected_scheme {
            return Err(ModbusUrlError::UnsupportedScheme);
        }
        let host = match &components.host {
            Some(host) => host.clone(),
            None => return Err(ModbusUrlError::MissingHost),
        };
        let port = match components.port {
            Some(port) => port,
            None => DEFAULT_PORT,
        };
        let segments = &components.path_segments;
        if segments.len() < 1 {
            return Err(ModbusUrlError::MissingSlaveId);
        }
        assert(components@.path_segments[0] == segments@[0]@);
        let slave_id = match parse_unsigned(segments[0].as_str(), 255) {
            Some(value) => value as u8,
            None => return Err(ModbusUrlError::InvalidSlaveId),
        };
        if segments.len() < 2 {
            return Err(ModbusUrlError::MissingAddress);
        }
        assert(components@.path_segments[1] == segments@[1]@);
        let address = match parse_unsigned(segments[1].as_str(), 65535) {
            Some(value) => value as u16,
            None => return Err(ModbusUrlError::InvalidAddress),
        };
        let operation = match &components.fragment {
            Some(fragment) => match Operation::parse(fragment.as_str()) {
                Some(operation) => operation,
                None => return Err(ModbusUrlError::InvalidOperation),
            },
            None => match Operation::try_from_address(address) {
                Ok(operation) => operation,
                Err(_) => return Err(ModbusUrlError::UnknownRegisterKind(address)),
            },
        };
        Ok(
            ParsedUrl {
                endpoint: Endpoint { host, port, slave_id },
                register: Register { address, operation, options },
            },
        )
    }

    /// Parse a `modbus+tcp://host:port/slave-id/address#kind` URL.
    ///
    /// The register gets the default value options; the URL's query, if any, is returned for the
    /// caller to decode the value options from.
    pub fn parse(text: &str) -> (result: Result<(ParsedUrl, Option<String>), ModbusUrlError>)
        ensures
            parsed_url(text@) is None ==> result == Err::<(ParsedUrl, Option<String>), ModbusUrlError>(
                ModbusUrlError::InvalidUrl,
            ),
            parsed_url(text@) matches Some(components) ==> match result {
                Ok((parsed, query)) => spec_from_components(
                    components,
                    Options { data_type: DataType::U16 },
                ) == Ok::<ParsedUrlView, ModbusUrlError>(parsed@) && option_text(query)
                    == components.query,
                Err(error) => spec_from_components(
                    components,
                    Options { data_type: DataType::U16 },
                ) == Err::<ParsedUrlView, ModbusUrlError>(error),
            },
    {
        let components = match UrlComponents::parse(text) {
            Some(components) => components,
            None => return Err(ModbusUrlError::InvalidUrl),
        };
        let parsed = ParsedUrl::from_components(&components, Options::default())?;
        Ok((parsed, components.query))
    }
}

} // verus!

verus! {

/// The URL's parts before the fragment are acceptable: the `modbus+tcp` scheme, a host, a slave
/// ID of at most 255 and a register address of at most 65535 in the first two path segments.
pub open spec fn endpoint_parts_valid(components: UrlComponentsView) -> bool {
    &&& components.scheme == "modbus+tcp"@
    &&& components.host is Some
    &&& components.path_segments.len() >= 2
    &&& parsed_at_most(components.path_segments[0], 255) is Some
    &&& parsed_at_most(components.path_segments[1], 65535) is Some
}

/// A fragment naming the register kind decides it, whatever the address: `holding` (in any
/// letter case) gives a holding register and `input` an input register, and the URL is accepted
/// with the address of its second segment. Without a fragment, addresses 30000 to 39999 are
/// input registers, 40000 to 49999 holding registers, and any other address is refused as of an
/// unknown kind.
pub proof fn lemma_fragment_decides_operation(components: UrlComponentsView, options: Options)
    requires
        endpoint_parts_valid(components),
    ensures
        ({
            let address = parsed_at_most(components.path_segments[1], 65535)->0 as u16;
            let result = spec_from_components(components, options);
            &&& (components.fragment is Some && equals_ignoring_ascii_case(
                components.fragment->0,
                "holding"@,
            )) ==> result is Ok && result->Ok_0.register.operation == Operation::Holding
                && result->Ok_0.register.address == address
            &&& (components.fragment is Some && equals_ignoring_ascii_case(
                components.fragment->0,
                "input"@,
            )) ==> result is Ok && result->Ok_0.register.operation == Operation::Input
                && result->Ok_0.register.address == address
            &&& (components.fragment is None && 30000 <= address <= 39999) ==> result is Ok
                && result->Ok_0.register.operation == Operation::Input
            &&& (components.fragment is None && 40000 <= address <= 49999) ==> result is Ok
                && result->Ok_0.register.operation == Operation::Holding
            &&& (components.fragment is None && !(30000 <= address <= 49999)) ==> result
                == Err::<ParsedUrlView, ModbusUrlError>(
                ModbusUrlError::UnknownRegisterKind(address),
            )
        }),
{
    reveal_strlit("holding");
    reveal_strlit("input");
}

} // verus!
