//! Where the service listens and where its dependencies are, with the
//! defaults that apply when nothing is set.

use vstd::prelude::*;
use vstd::utf8::encode_utf8;

verus! {

/// The address the service binds to when none is given.
pub const DEFAULT_BIND_ADDR: &'static str = "0.0.0.0:8080";

/// The tracing filter when none is given.
pub const DEFAULT_LOG_LEVEL: &'static str = "info,tower_http=info";

/// The environment label when none is given.
pub const DEFAULT_ENVIRONMENT: &'static str = "development";

/// Where `srvcs-reciprocal` is reached when no URL is given.
pub const DEFAULT_RECIPROCAL_URL: &'static str = "http://127.0.0.1:8090";

/// Where `srvcs-floatadd` is reached when no URL is given.
pub const DEFAULT_FLOATADD_URL: &'static str = "http://127.0.0.1:8091";

/// Where `srvcs-floatdivide` is reached when no URL is given.
pub const DEFAULT_FLOATDIVIDE_URL: &'static str = "http://127.0.0.1:8092";

/// The service's settings. The bind address is kept as the `host:port`
/// text it was given; it is parsed into a socket address where the service
/// binds.
pub struct Config {
    pub bind_addr: String,
    pub log_level: String,
    pub environment: String,
    /// Base URL of the srvcs-reciprocal dependency.
    pub reciprocal_url: String,
    /// Base URL of the srvcs-floatadd dependency.
    pub floatadd_url: String,
    /// Base URL of the srvcs-floatdivide dependency.
    pub floatdivide_url: String,
}

/// The setting that applies: the given text, else the default.
pub open spec fn setting(given: Option<String>, default: &'static str) -> Seq<char> {
    match given {
        Some(text) => text@,
        None => default@,
    }
}

/// The ASCII code of `:`.
pub open spec fn colon() -> u8 {
    58u8
}

/// Whether `byte` is an ASCII decimal digit.
pub open spec fn is_digit(byte: u8) -> bool {
    48 <= byte <= 57
}

/// The position of the last `:` in `text`, or `-1` where it has none.
pub open spec fn last_colon(text: Seq<u8>) -> int
    decreases text.len(),
{
    if text.len() == 0 {
        -1
    } else if text.last() == colon() {
        text.len() - 1
    } else {
        last_colon(text.drop_last())
    }
}

/// The number that a run of decimal digits writes.
pub open spec fn decimal_value(digits: Seq<u8>) -> int
    decreases digits.len(),
{
    if digits.len() == 0 {
        0
    } else {
        decimal_value(digits.drop_last()) * 10 + (digits.last() - 48)
    }
}

/// The port of a `host:port` text: what follows its last `:`, when that is
/// one or more decimal digits writing a number no larger than `65535`.
pub open spec fn port_spec(text: Seq<u8>) -> Option<u16> {
    let colon_at = last_colon(text);
    let digits = text.subrange(colon_at + 1, text.len() as int);
    if colon_at >= 0 && digits.len() > 0 && (forall|i: int|
        0 <= i < digits.len() ==> is_digit(#[trigger] digits[i])) && decimal_value(digits) <= 65535 {
        Some(decimal_value(digits) as u16)
    } else {
        None
    }
}

proof fn lemma_last_colon(text: Seq<u8>, at: int)
    requires
        -1 <= at < text.len(),
        at >= 0 ==> text[at] == colon(),
        forall|j: int| at < j < text.len() ==> text[j] != colon(),
    ensures
        last_colon(text) == at,
    decreases text.len(),
{
    if text.len() > 0 && at < text.len() - 1 {
        lemma_last_colon(text.drop_last(), at);
    }
}

proof fn lemma_decimal_value_grows(digits: Seq<u8>, k: int)
    requires
        0 <= k <= digits.len(),
        forall|i: int| 0 <= i < digits.len() ==> is_digit(#[trigger] digits[i]),
    ensures
        decimal_value(digits) >= decimal_value(digits.subrange(0, k)),
        decimal_value(digits) >= 0,
    decreases digits.len(),
{
    if digits.len() > 0 {
        let shorter = digits.drop_last();
        assert forall|i: int| 0 <= i < shorter.len() implies is_digit(#[trigger] shorter[i]) by {
            assert(shorter[i] == digits[i]);
        }
        if k < digits.len() {
            lemma_decimal_value_grows(shorter, k);
            assert(shorter.subrange(0, k) =~= digits.subrange(0, k));
        } else {
            lemma_decimal_value_grows(shorter, 0);
            assert(digits.subrange(0, k) =~= digits);
        }
    }
}

/// A given setting wins; an absent one takes its default, and the defaults
/// are `0.0.0.0:8080`, `info,tower_http=info`, `development` and the three
/// local dependency URLs on ports `8090`, `8091` and `8092`.
pub proof fn settings_fall_back_to_defaults(given: String, default: &'static str)
    ensures
        setting(Some(given), default) == given@,
        setting(None, default) == default@,
        DEFAULT_BIND_ADDR@ == "0.0.0.0:8080"@,
        DEFAULT_LOG_LEVEL@ == "info,tower_http=info"@,
        DEFAULT_ENVIRONMENT@ == "development"@,
        DEFAULT_RECIPROCAL_URL@ == "http://127.0.0.1:8090"@,
        DEFAULT_FLOATADD_URL@ == "http://127.0.0.1:8091"@,
        DEFAULT_FLOATDIVIDE_URL@ == "http://127.0.0.1:8092"@,
{
}

/// The port of `host:digits` is the number the decimal digits write, where
/// there is at least one digit and the number fits a port; otherwise there
/// is none. Whatever `host` holds, colons included, only the last colon
/// counts. Digits are read most significant first.
pub proof fn port_is_the_number_after_the_last_colon(host: Seq<u8>, digits: Seq<u8>)
    requires
        forall|i: int| 0 <= i < digits.len() ==> 48 <= #[trigger] digits[i] <= 57,
    ensures
        digits.len() > 0 && decimal_value(digits) <= 65535 ==> port_spec(host + seq![58u8] + digits)
            == Some(decimal_value(digits) as u16),
        digits.len() == 0 || decimal_value(digits) > 65535 ==> port_spec(
            host + seq![58u8] + digits,
        ) is None,
        decimal_value(Seq::<u8>::empty()) == 0,
        digits.len() > 0 ==> decimal_value(digits) == 10 * decimal_value(digits.drop_last()) + (
        digits.last() - 48),
        decimal_value(digits) >= 0,
{
    let text = host + seq![58u8] + digits;
    assert forall|j: int| host.len() < j < text.len() implies text[j] != colon() by {
        assert(text[j] == digits[j - host.len() - 1]);
    }
    lemma_last_colon(text, host.len() as int);
    assert(text.subrange(host.len() + 1int, text.len() as int) =~= digits);
    lemma_decimal_value_grows(digits, 0);
}

/// A text with no colon has no port; nor has one whose text after the last
/// colon holds something other than a decimal digit.
pub proof fn no_port_without_digits_after_a_colon(host: Seq<u8>, tail: Seq<u8>, text: Seq<u8>)
    requires
        forall|i: int| 0 <= i < tail.len() ==> #[trigger] tail[i] != 58u8,
        exists|i: int| 0 <= i < tail.len() && !(48 <= #[trigger] tail[i] <= 57),
    ensures
        (forall|i: int| 0 <= i < text.len() ==> #[trigger] text[i] != 58u8) ==> port_spec(text) is None,
        port_spec(host + seq![58u8] + tail) is None,
{
    if forall|i: int| 0 <= i < text.len() ==> #[trigger] text[i] != 58u8 {
        lemma_last_colon(text, -1);
    }
    let full = host + seq![58u8] + tail;
    assert forall|j: int| host.len() < j < full.len() implies full[j] != colon() by {
        assert(full[j] == tail[j - host.len() - 1]);
    }
    lemma_last_colon(full, host.len() as int);
    let digits = full.subrange(host.len() + 1int, full.len() as int);
    assert(digits =~= tail);
    let i = choose|i: int| 0 <= i < tail.len() && !(48 <= #[trigger] tail[i] <= 57);
    assert(!is_digit(digits[i]));
}

fn text_or(given: Option<String>, default: &'static str) -> (text: String)
    ensures
        text@ == setting(given, default),
{
    match given {
        Some(text) => text,
        None => default.to_owned(),
    }
}

impl Config {
    /// The settings from the given values, each falling back to its default
    /// when absent.
    pub fn from_vars(
        bind: Option<String>,
        log: Option<String>,
        env: Option<String>,
        reciprocal_url: Option<String>,
        floatadd_url: Option<String>,
        floatdivide_url: Option<String>,
    ) -> (config: Self)
        ensures
            config.bind_addr@ == setting(bind, DEFAULT_BIND_ADDR),
            config.log_level@ == setting(log, DEFAULT_LOG_LEVEL),
            config.environment@ == setting(env, DEFAULT_ENVIRONMENT),
            config.reciprocal_url@ == setting(reciprocal_url, DEFAULT_RECIPROCAL_URL),
            config.floatadd_url@ == setting(floatadd_url, DEFAULT_FLOATADD_URL),
            config.floatdivide_url@ == setting(floatdivide_url, DEFAULT_FLOATDIVIDE_URL),
    {
        Config {
            bind_addr: text_or(bind, DEFAULT_BIND_ADDR),
            log_level: text_or(log, DEFAULT_LOG_LEVEL),
            environment: text_or(env, DEFAULT_ENVIRONMENT),
            reciprocal_url: text_or(reciprocal_url, DEFAULT_RECIPROCAL_URL),
            floatadd_url: text_or(floatadd_url, DEFAULT_FLOATADD_URL),
            floatdivide_url: text_or(floatdivide_url, DEFAULT_FLOATDIVIDE_URL),
        }
    }

    /// The port of the bind address: the digits after its last `:`.
    pub fn bind_port(&self) -> (port: Option<u16>)
        ensures
            port == port_spec(encode_utf8(self.bind_addr@)),
    {
        let text = self.bind_addr.as_str().as_bytes();
        let ghost bytes = text@;
        assert(bytes == encode_utf8(self.bind_addr@));
        let len = text.len();
        // Find the last colon.
        let mut i: usize = len;
        let mut found = false;
        while i > 0
            invariant_except_break
                !found,
            invariant
                i <= len,
                len == bytes.len(),
                text@ == bytes,
                forall|j: int| i <= j < len ==> bytes[j] != colon(),
            ensures
                i <= len,
                found ==> i >= 1 && bytes[i - 1] == colon(),
                !found ==> i == 0,
                forall|j: int| i <= j < len ==> bytes[j] != colon(),
            decreases i,
        {
            if text[i - 1] == 58u8 {
                found = true;
                break;
            }
            i = i - 1;
        }
        if !found {
            proof {
                lemma_last_colon(bytes, -1);
            }
            return None;
        }
        proof {
            lemma_last_colon(bytes, i - 1);
        }
        let start = i;
        let ghost digits = bytes.subrange(start as int, len as int);
        if start == len {
            return None;
        }
        let mut value: u32 = 0;
        let mut j: usize = start;
        while j < len
            invariant
                start <= j <= len,
                len == bytes.len(),
                text@ == bytes,
                digits == bytes.subrange(start as int, len as int),
                bytes == encode_utf8(self.bind_addr@),
                last_colon(bytes) == start - 1,
                value <= 65535,
                value == decimal_value(digits.subrange(0, j - start)),
                forall|k: int| 0 <= k < j - start ==> is_digit(#[trigger] digits[k]),
            decreases len - j,
        {
            let byte = text[j];
            if byte < 48u8 || byte > 57u8 {
                assert(!is_digit(digits[j - start]));
                return None;
            }
            let next = value * 10 + (byte - 48u8) as u32;
            proof {
                let before = digits.subrange(0, j - start);
                let after = digits.subrange(0, j + 1 - start);
                assert(after.drop_last() =~= before);
                assert(after.last() == byte);
            }
            if next > 65535 {
                proof {
                    if forall|k: int| 0 <= k < digits.len() ==> is_digit(#[trigger] digits[k]) {
                        lemma_decimal_value_grows(digits, j + 1 - start);
                    }
                }
                return None;
            }
            value = next;
            j = j + 1;
        }
        proof {
            assert(digits.subrange(0, len - start) =~= digits);
        }
        Some(value as u16)
    }
}

} // verus!
