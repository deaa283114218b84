//! The gateway address: its textual form, the static configuration built from
//! it, and the seed of the network stack.

use vstd::prelude::*;
use vstd::string::StringSliceAdditionalSpecFns;

verus! {

/// The gateway address used when none is configured.
pub const DEFAULT_GATEWAY: &'static str = "192.168.2.1";

/// Length of the network prefix of the device's address.
pub const PREFIX_LEN: u8 = 24;

/// The separator between the octets of an address.
pub const DOT: u8 = 46;

/// The digit zero.
pub const ZERO: u8 = 48;

/// An IPv4 address: the device's own address and the gateway that joining
/// stations are given.
#[derive(Clone, Copy, Debug, PartialEq, Eq)]
pub struct GatewayAddress {
    pub octets: [u8; 4],
}

/// Why the gateway address could not be resolved.
#[derive(Clone, Copy, Debug, PartialEq, Eq, Structural)]
pub enum GatewayError {
    /// The text is not four decimal octets separated by dots.
    Malformed,
}

/// Whether `byte` is a decimal digit.
pub open spec fn is_digit(byte: u8) -> bool {
    ZERO <= byte <= ZERO + 9
}

/// The decimal numeral of `value`, without leading zeros.
pub open spec fn decimal(value: u8) -> Seq<u8> {
    if value < 10 {
        seq![(ZERO + value) as u8]
    } else if value < 100 {
        seq![(ZERO + value / 10) as u8, (ZERO + value % 10) as u8]
    } else {
        seq![(ZERO + value / 100) as u8, (ZERO + (value / 10) % 10) as u8, (ZERO + value % 10) as u8]
    }
}

/// The textual form of the address `a.b.c.d`.
pub open spec fn dotted(a: u8, b: u8, c: u8, d: u8) -> Seq<u8> {
    decimal(a) + seq![DOT] + decimal(b) + seq![DOT] + decimal(c) + seq![DOT] + decimal(d)
}

/// The textual form of `address`.
pub open spec fn text_of(address: GatewayAddress) -> Seq<u8> {
    dotted(address.octets[0], address.octets[1], address.octets[2], address.octets[3])
}

/// `text` is the textual form of some address.
pub open spec fn is_address(text: Seq<u8>) -> bool {
    exists|a: u8, b: u8, c: u8, d: u8| text == dotted(a, b, c, d)
}

/// The numeral of `value` stands in `text` from `start` up to `end`, and no
/// digit follows it.
pub open spec fn numeral_at(text: Seq<u8>, start: int, end: int, value: u8) -> bool {
    &&& 0 <= start < end <= text.len()
    &&& text.subrange(start, end) == decimal(value)
    &&& end < text.len() ==> !is_digit(text[end])
}

/// No numeral stands in `text` at `start`.
pub open spec fn no_numeral_at(text: Seq<u8>, start: int) -> bool {
    forall|value: u8, end: int| !#[trigger] numeral_at(text, start, end, value)
}

/// The number that the digits of a numeral of up to three digits stand for.
pub open spec fn numeral_value(digits: Seq<u8>) -> int {
    if digits.len() == 1 {
        digits[0] - ZERO
    } else if digits.len() == 2 {
        10 * (digits[0] - ZERO) + (digits[1] - ZERO)
    } else {
        100 * (digits[0] - ZERO) + 10 * (digits[1] - ZERO) + (digits[2] - ZERO)
    }
}

/// A numeral has one to three digits, starts with zero only if it is zero
/// itself, and stands for its value.
pub proof fn lemma_decimal_shape(value: u8)
    ensures
        1 <= decimal(value).len() <= 3,
        forall|i: int| 0 <= i < decimal(value).len() ==> is_digit(#[trigger] decimal(value)[i]),
        decimal(value).len() > 1 ==> decimal(value)[0] != ZERO,
        numeral_value(decimal(value)) == value,
{
}

/// At one place in a text at most one numeral stands.
pub proof fn lemma_numeral_unique(
    text: Seq<u8>,
    start: int,
    end: int,
    value: u8,
    other_end: int,
    other_value: u8,
)
    requires
        numeral_at(text, start, end, value),
        numeral_at(text, start, other_end, other_value),
    ensures
        end == other_end,
        value == other_value,
{
    lemma_decimal_shape(value);
    lemma_decimal_shape(other_value);
    if end < other_end {
        assert(text[end] == text.subrange(start, other_end)[end - start]);
    }
    if other_end < end {
        assert(text[other_end] == text.subrange(start, end)[other_end - start]);
    }
}

/// Where the parts of a textual address stand.
pub proof fn lemma_dotted_structure(a: u8, b: u8, c: u8, d: u8)
    ensures
        ({
            let text = dotted(a, b, c, d);
            let first = decimal(a).len() as int;
            let second = first + 1 + decimal(b).len();
            let third = second + 1 + decimal(c).len();
            &&& numeral_at(text, 0, first, a)
            &&& text[first] == DOT
            &&& numeral_at(text, first + 1, second, b)
            &&& text[second] == DOT
            &&& numeral_at(text, second + 1, third, c)
            &&& text[third] == DOT
            &&& numeral_at(text, third + 1, text.len() as int, d)
            &&& text.len() == third + 1 + decimal(d).len()
        }),
{
    lemma_decimal_shape(a);
    lemma_decimal_shape(b);
    lemma_decimal_shape(c);
    lemma_decimal_shape(d);
    let text = dotted(a, b, c, d);
    let first = decimal(a).len() as int;
    let second = first + 1 + decimal(b).len();
    let third = second + 1 + decimal(c).len();
    assert(text.subrange(0, first) =~= decimal(a));
    assert(text.subrange(first + 1, second) =~= decimal(b));
    assert(text.subrange(second + 1, third) =~= decimal(c));
    assert(text.subrange(third + 1, text.len() as int) =~= decimal(d));
}

/// Two addresses with the same textual form are the same.
pub proof fn lemma_dotted_injective(a: u8, b: u8, c: u8, d: u8, e: u8, f: u8, g: u8, h: u8)
    requires
        dotted(a, b, c, d) == dotted(e, f, g, h),
    ensures
        a == e,
        b == f,
        c == g,
        d == h,
{
    let text = dotted(a, b, c, d);
    lemma_dotted_structure(a, b, c, d);
    lemma_dotted_structure(e, f, g, h);
    let first = decimal(a).len() as int;
    lemma_numeral_unique(text, 0, first, a, decimal(e).len() as int, e);
    let second = first + 1 + decimal(b).len();
    lemma_numeral_unique(text, first + 1, second, b, first + 1 + decimal(f).len(), f);
    let third = second + 1 + decimal(c).len();
    lemma_numeral_unique(text, second + 1, third, c, second + 1 + decimal(g).len(), g);
    lemma_numeral_unique(text, third + 1, text.len() as int, d, text.len() as int, h);
}

/// `known` numerals have been read from the front of `text`, each but the
/// first behind a dot: the first ends at `ends[0]`, the next begins behind
/// the dot at `ends[0]`, and so on.
pub open spec fn octets_read(text: Seq<u8>, values: Seq<u8>, ends: Seq<int>, known: int) -> bool {
    &&& 0 <= known <= 4
    &&& values.len() == 4
    &&& ends.len() == 4
    &&& known >= 1 ==> numeral_at(text, 0, ends[0], values[0])
    &&& forall|k: int|
        1 <= k < known ==> text[ends[k - 1]] == DOT && numeral_at(
            text,
            ends[k - 1] + 1,
            #[trigger] ends[k],
            values[k],
        )
}

/// After `known` numerals the text cannot be read on as an address: the next
/// numeral or the dot before it is missing, or something follows the fourth.
pub open spec fn reading_stuck(text: Seq<u8>, ends: Seq<int>, known: int) -> bool {
    if known == 0 {
        no_numeral_at(text, 0)
    } else if known < 4 {
        let dot = ends[known - 1];
        !(dot < text.len() && text[dot] == DOT) || no_numeral_at(text, dot + 1)
    } else {
        ends[3] != text.len()
    }
}

/// The numerals read from the front of a textual address are its octets, and
/// they end where the octets' numerals end.
proof fn lemma_agreement(
    text: Seq<u8>,
    values: Seq<u8>,
    ends: Seq<int>,
    known: int,
    e: u8,
    f: u8,
    g: u8,
    h: u8,
)
    requires
        text == dotted(e, f, g, h),
        octets_read(text, values, ends, known),
    ensures
        known >= 1 ==> values[0] == e && ends[0] == decimal(e).len(),
        known >= 2 ==> values[1] == f && ends[1] == ends[0] + 1 + decimal(f).len(),
        known >= 3 ==> values[2] == g && ends[2] == ends[1] + 1 + decimal(g).len(),
        known >= 4 ==> values[3] == h && ends[3] == text.len(),
{
    lemma_dotted_structure(e, f, g, h);
    if known >= 1 {
        lemma_numeral_unique(text, 0, ends[0], values[0], decimal(e).len() as int, e);
    }
    if known >= 2 {
        assert(numeral_at(text, ends[0] + 1, ends[1], values[1]));
        let end = ends[0] + 1 + decimal(f).len();
        lemma_numeral_unique(text, ends[0] + 1, ends[1], values[1], end, f);
    }
    if known >= 3 {
        assert(numeral_at(text, ends[1] + 1, ends[2], values[2]));
        let end = ends[1] + 1 + decimal(g).len();
        lemma_numeral_unique(text, ends[1] + 1, ends[2], values[2], end, g);
    }
    if known >= 4 {
        assert(numeral_at(text, ends[2] + 1, ends[3], values[3]));
        lemma_numeral_unique(text, ends[2] + 1, ends[3], values[3], text.len() as int, h);
    }
}

/// A text on which the reading gets stuck is no address.
proof fn lemma_stuck_is_malformed(text: Seq<u8>, values: Seq<u8>, ends: Seq<int>, known: int)
    requires
        octets_read(text, values, ends, known),
        reading_stuck(text, ends, known),
    ensures
        !is_address(text),
{
    assert forall|e: u8, f: u8, g: u8, h: u8| text != dotted(e, f, g, h) by {
        if text == dotted(e, f, g, h) {
            lemma_dotted_structure(e, f, g, h);
            lemma_agreement(text, values, ends, known, e, f, g, h);
        }
    }
}

/// A text from which four numerals were read up to its end is the textual
/// form of their values.
proof fn lemma_read_is_address(text: Seq<u8>, values: Seq<u8>, ends: Seq<int>)
    requires
        octets_read(text, values, ends, 4),
        ends[3] == text.len(),
    ensures
        text == dotted(values[0], values[1], values[2], values[3]),
{
    let rebuilt = dotted(values[0], values[1], values[2], values[3]);
    lemma_decimal_shape(values[0]);
    lemma_decimal_shape(values[1]);
    lemma_decimal_shape(values[2]);
    lemma_decimal_shape(values[3]);
    assert(numeral_at(text, ends[0] + 1, ends[1], values[1]));
    assert(numeral_at(text, ends[1] + 1, ends[2], values[2]));
    assert(numeral_at(text, ends[2] + 1, ends[3], values[3]));
    assert(rebuilt.len() == text.len());
    assert forall|i: int| 0 <= i < text.len() implies text[i] == rebuilt[i] by {
        if i < ends[0] {
            assert(text[i] == text.subrange(0, ends[0])[i]);
        } else if ends[0] < i < ends[1] {
            assert(text[i] == text.subrange(ends[0] + 1, ends[1])[i - ends[0] - 1]);
        } else if ends[1] < i < ends[2] {
            assert(text[i] == text.subrange(ends[1] + 1, ends[2])[i - ends[1] - 1]);
        } else if ends[2] < i {
            assert(text[i] == text.subrange(ends[2] + 1, ends[3])[i - ends[2] - 1]);
        }
    }
    assert(text =~= rebuilt);
}

/// Reads the numeral that stands in `text` at `start`: its value and the
/// offset behind it. There is none where no digit stands, where more than
/// three stand in a row, where a zero leads other digits, and where the digits
/// stand for more than 255.
pub fn parse_octet(text: &[u8], start: usize) -> (parsed: Option<(u8, usize)>)
    requires
        start <= text@.len(),
    ensures
        match parsed {
            Some((value, end)) => numeral_at(text@, start as int, end as int, value),
            None => no_numeral_at(text@, start as int),
        },
{
    let len: usize = text.len();
    let mut end: usize = start;
    while end < len && end - start < 4 && ZERO <= text[end] && text[end] <= ZERO + 9
        invariant
            len == text@.len(),
            start <= end <= len,
            end - start <= 4,
            forall|i: int| start <= i < end ==> is_digit(#[trigger] text@[i]),
        decreases len - end,
    {
        end = end + 1;
    }
    let count: usize = end - start;
    if count == 0 || count > 3 {
        proof {
            assert forall|value: u8, other_end: int| !numeral_at(
                text@,
                start as int,
                other_end,
                value,
            ) by {
                if numeral_at(text@, start as int, other_end, value) {
                    lemma_decimal_shape(value);
                    assert(text@[start as int] == text@.subrange(start as int, other_end)[0]);
                    assert(is_digit(decimal(value)[0]));
                }
            }
        }
        return None;
    }
    proof {
        assert forall|value: u8, other_end: int|
            numeral_at(text@, start as int, other_end, value) implies other_end == end by {
            lemma_decimal_shape(value);
            if end < other_end {
                assert(text@[end as int] == text@.subrange(start as int, other_end)[end - start]);
                assert(is_digit(decimal(value)[end - start]));
            }
        }
    }
    if count > 1 && text[start] == ZERO {
        proof {
            assert forall|value: u8, other_end: int| !numeral_at(
                text@,
                start as int,
                other_end,
                value,
            ) by {
                if numeral_at(text@, start as int, other_end, value) {
                    lemma_decimal_shape(value);
                    assert(text@[start as int] == text@.subrange(start as int, other_end)[0]);
                }
            }
        }
        return None;
    }
    let mut number: u16 = 0;
    let mut at: usize = start;
    while at < end
        invariant
            start <= at <= end <= len,
            len == text@.len(),
            end - start <= 3,
            forall|i: int| start <= i < end ==> is_digit(#[trigger] text@[i]),
            at == start ==> number == 0,
            at == start + 1 ==> number == text@[start as int] - ZERO,
            at == start + 2 ==> number == 10 * (text@[start as int] - ZERO) + (text@[start + 1]
                - ZERO),
            at == start + 3 ==> number == 100 * (text@[start as int] - ZERO) + 10 * (text@[start
                + 1] - ZERO) + (text@[start + 2] - ZERO),
        decreases end - at,
    {
        number = number * 10 + (text[at] - ZERO) as u16;
        at = at + 1;
    }
    let ghost digits = text@.subrange(start as int, end as int);
    assert(number == numeral_value(digits));
    if number > 255 {
        proof {
            assert forall|value: u8, other_end: int| !numeral_at(
                text@,
                start as int,
                other_end,
                value,
            ) by {
                if numeral_at(text@, start as int, other_end, value) {
                    lemma_decimal_shape(value);
                }
            }
        }
        return None;
    }
    let value: u8 = number as u8;
    assert(digits =~= decimal(value));
    Some((value, end))
}

/// Whether a dot stands in `text` at `at`.
fn dot_at(text: &[u8], at: usize) -> (found: bool)
    ensures
        found == (at < text@.len() && text@[at as int] == DOT),
{
    at < text.len() && text[at] == DOT
}

/// Reads an address from its textual form: four decimal octets separated by
/// dots, each without leading zeros and no greater than 255, and nothing
/// else. Any other text is malformed.
pub fn parse_address(text: &[u8]) -> (parsed: Result<GatewayAddress, GatewayError>)
    ensures
        parsed is Ok <==> is_address(text@),
        parsed is Ok ==> text@ == text_of(parsed->Ok_0),
        parsed is Err ==> parsed->Err_0 == GatewayError::Malformed,
{
    let len: usize = text.len();
    let mut octets: [u8; 4] = [0, 0, 0, 0];
    let mut position: usize = 0;
    let ghost mut ends: Seq<int> = seq![0int, 0int, 0int, 0int];
    let mut known: usize = 0;
    while known < 4
        invariant
            len == text@.len(),
            known <= 4,
            position <= len,
            octets_read(text@, octets@, ends, known as int),
            known >= 1 ==> position == ends[known - 1],
            known == 0 ==> position == 0,
        decreases 4 - known,
    {
        if known > 0 {
            if !dot_at(text, position) {
                proof {
                    lemma_stuck_is_malformed(text@, octets@, ends, known as int);
                }
                return Err(GatewayError::Malformed);
            }
            position = position + 1;
        }
        match parse_octet(text, position) {
            Some((value, end)) => {
                octets[known] = value;
                proof {
                    ends = ends.update(known as int, end as int);
                }
                position = end;
                known = known + 1;
            },
            None => {
                proof {
                    lemma_stuck_is_malformed(text@, octets@, ends, known as int);
                }
                return Err(GatewayError::Malformed);
            },
        }
    }
    if position != len {
        proof {
            lemma_stuck_is_malformed(text@, octets@, ends, 4);
        }
        return Err(GatewayError::Malformed);
    }
    proof {
        lemma_read_is_address(text@, octets@, ends);
    }
    Ok(GatewayAddress { octets })
}

/// Reads an address from a string; see [`parse_address`].
pub fn parse_gateway(text: &str) -> (parsed: Result<GatewayAddress, GatewayError>)
    ensures
        parsed is Ok <==> is_address(text.spec_bytes()),
        parsed is Ok ==> text.spec_bytes() == text_of(parsed->Ok_0),
        parsed is Err ==> parsed->Err_0 == GatewayError::Malformed,
{
    parse_address(text.as_bytes())
}

/// The text that the gateway address is read from: the configured one, or the
/// default where none is configured.
pub open spec fn chosen_text(configured: Option<&str>) -> Seq<u8> {
    match configured {
        Some(text) => text.spec_bytes(),
        None => DEFAULT_GATEWAY.spec_bytes(),
    }
}

/// The textual form of the default gateway address is `DEFAULT_GATEWAY`.
pub proof fn lemma_default_gateway_text()
    ensures
        DEFAULT_GATEWAY.spec_bytes() == dotted(192, 168, 2, 1),
{
    reveal_strlit("192.168.2.1");
    vstd::string::is_ascii_spec_bytes(DEFAULT_GATEWAY);
    assert(vstd::string::is_ascii(DEFAULT_GATEWAY)) by {
        assert forall|i: int| 0 <= i < DEFAULT_GATEWAY@.len() implies (DEFAULT_GATEWAY@[i] as u32)
            < 128 by {}
    }
    assert(DEFAULT_GATEWAY.spec_bytes() =~= dotted(192, 168, 2, 1));
}

/// The text that the gateway address is read from, which is also what the
/// lease service is handed: `configured`, or `DEFAULT_GATEWAY` where nothing
/// is configured.
pub fn gateway_text<'a>(configured: Option<&'a str>) -> (text: &'a str)
    ensures
        text.spec_bytes() == chosen_text(configured),
        text@ == (match configured {
            Some(given) => given@,
            None => DEFAULT_GATEWAY@,
        }),
{
    match configured {
        Some(text) => text,
        None => DEFAULT_GATEWAY,
    }
}

/// Resolves the gateway address: from `configured` where an address is
/// configured, else from `DEFAULT_GATEWAY`. A configured text that is
/// malformed is an error; the default does not stand in for it.
pub fn resolve_gateway(configured: Option<&str>) -> (resolved: Result<
    GatewayAddress,
    GatewayError,
>)
    ensures
        resolved is Ok <==> is_address(chosen_text(configured)),
        resolved is Ok ==> chosen_text(configured) == text_of(resolved->Ok_0),
        resolved is Err ==> resolved->Err_0 == GatewayError::Malformed,
        configured is None ==> resolved is Ok && resolved->Ok_0.octets@ == seq![
            192u8,
            168u8,
            2u8,
            1u8,
        ],
{
    let resolved = parse_gateway(gateway_text(configured));
    proof {
        if configured is None {
            lemma_default_gateway_text();
            match resolved {
                Ok(address) => {
                    lemma_dotted_injective(
                        address.octets[0],
                        address.octets[1],
                        address.octets[2],
                        address.octets[3],
                        192,
                        168,
                        2,
                        1,
                    );
                    assert(address.octets@ =~= seq![192u8, 168u8, 2u8, 1u8]);
                },
                Err(_) => {},
            }
        }
    }
    resolved
}

/// A static IPv4 configuration of the network stack.
#[derive(Debug)]
pub struct StaticIpv4Config {
    /// The device's own address.
    pub address: GatewayAddress,
    /// Length of the network prefix of `address`.
    pub prefix_len: u8,
    /// The gateway that the device routes through.
    pub gateway: Option<GatewayAddress>,
    /// The name servers that the device asks.
    pub dns_servers: Vec<GatewayAddress>,
}

/// The configuration of a device that is its own gateway at `gateway`: that
/// address with a prefix of `PREFIX_LEN` bits, itself as the gateway, and no
/// name servers.
pub fn static_config(gateway: GatewayAddress) -> (config: StaticIpv4Config)
    ensures
        config.address == gateway,
        config.prefix_len == PREFIX_LEN,
        config.gateway == Some(gateway),
        config.dns_servers@.len() == 0,
{
    StaticIpv4Config {
        address: gateway,
        prefix_len: PREFIX_LEN,
        gateway: Some(gateway),
        dns_servers: Vec::new(),
    }
}

/// The seed of the network stack: `high` in the upper 32 bits and `low` in the
/// lower ones.
pub fn stack_seed(high: u32, low: u32) -> (seed: u64)
    ensures
        seed == high * 0x1_0000_0000 + low,
{
    let upper: u64 = (high as u64) << 32;
    let lower: u64 = low as u64;
    assert(upper | lower == high * 0x1_0000_0000 + low) by (bit_vector)
        requires
            upper == (high as u64) << 32,
            lower == low as u64,
    ;
    upper | lower
}

} // verus!
