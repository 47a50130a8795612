//! Helpers for keys of the table storage: an escaping of the characters that
//! a partition or row key may not hold, and the classification of storage errors.
use vstd::prelude::*;
use vstd::utf8::encode_utf8;
use crate::text::{str_chars, string_from_chars, push_str, push_decimal, spec_decimal, concat_str};

verus! {

/// Characters that a table storage key may not contain, and `%`, which
/// introduces an escape.
pub open spec fn is_reserved_key_char(c: char) -> bool {
    ||| c == '/'
    ||| c == '\\'
    ||| c == '#'
    ||| c == '?'
    ||| c == '%'
    ||| (c as u32) < 32
    ||| (127 <= (c as u32) && (c as u32) < 160)
}

/// Upper case hexadecimal digit of `d` (`d < 16`).
pub open spec fn hex_char(d: nat) -> char {
    if d < 10 {
        (48 + d) as char
    } else {
        (55 + d) as char
    }
}

/// Value of a hexadecimal digit (either case).
pub open spec fn hex_value(c: char) -> Option<nat> {
    let v = c as u32;
    if 48 <= v && v <= 57 {
        Some((v - 48) as nat)
    } else if 65 <= v && v <= 70 {
        Some((v - 55) as nat)
    } else if 97 <= v && v <= 102 {
        Some((v - 87) as nat)
    } else {
        None
    }
}

/// The escaped form of a single character.
pub open spec fn encode_key_char(c: char) -> Seq<char> {
    if is_reserved_key_char(c) {
        seq!['%', hex_char((c as u32 / 16) as nat), hex_char((c as u32 % 16) as nat)]
    } else {
        seq![c]
    }
}

/// A key made safe for table storage: each reserved character is replaced by
/// `%` and its code in two hexadecimal digits.
pub open spec fn spec_encode_safe_key(s: Seq<char>) -> Seq<char>
    decreases s.len(),
{
    if s.len() == 0 {
        seq![]
    } else {
        encode_key_char(s[0]) + spec_encode_safe_key(s.drop_first())
    }
}

/// The inverse of the escaping; `None` for a malformed escape.
pub open spec fn spec_decode_safe_key(s: Seq<char>) -> Option<Seq<char>>
    decreases s.len(),
{
    if s.len() == 0 {
        Some(seq![])
    } else if s[0] == '%' {
        if s.len() >= 3 && hex_value(s[1]) is Some && hex_value(s[2]) is Some {
            match spec_decode_safe_key(s.skip(3)) {
                Some(rest) => Some(
                    seq![(((hex_value(s[1])->0 * 16 + hex_value(s[2])->0) as u8) as char)] + rest,
                ),
                None => None,
            }
        } else {
            None
        }
    } else {
        match spec_decode_safe_key(s.drop_first()) {
            Some(rest) => Some(seq![s[0]] + rest),
            None => None,
        }
    }
}

/// Escaping distributes over concatenation.
pub proof fn lemma_encode_concat(a: Seq<char>, b: Seq<char>)
    ensures
        spec_encode_safe_key(a + b) == spec_encode_safe_key(a) + spec_encode_safe_key(b),
    decreases a.len(),
{
    if a.len() == 0 {
        assert(a + b =~= b);
    } else {
        lemma_encode_concat(a.drop_first(), b);
        assert((a + b).drop_first() =~= a.drop_first() + b);
        assert((a + b)[0] == a[0]);
        assert(encode_key_char(a[0]) + (spec_encode_safe_key(a.drop_first()) + spec_encode_safe_key(b))
            =~= (encode_key_char(a[0]) + spec_encode_safe_key(a.drop_first())) + spec_encode_safe_key(b));
    }
}

proof fn lemma_small_char_roundtrip(c: char)
    requires
        (c as u32) < 256,
    ensures
        ((c as u32) as u8) as char == c,
{
}

proof fn lemma_hex_roundtrip(d: nat)
    requires
        d < 16,
    ensures
        hex_value(hex_char(d)) == Some(d),
{
}

/// Decoding an escaped key gives back the key that was escaped.
pub proof fn lemma_decode_encode(s: Seq<char>)
    ensures
        spec_decode_safe_key(spec_encode_safe_key(s)) == Some(s),
    decreases s.len(),
{
    if s.len() == 0 {
    } else {
        let c = s[0];
        let rest = s.drop_first();
        lemma_decode_encode(rest);
        let e = spec_encode_safe_key(s);
        let er = spec_encode_safe_key(rest);
        assert(e == encode_key_char(c) + er);
        if is_reserved_key_char(c) {
            let v = c as u32;
            lemma_hex_roundtrip((v / 16) as nat);
            lemma_hex_roundtrip((v % 16) as nat);
            assert(e[0] == '%');
            assert(e[1] == hex_char((v / 16) as nat));
            assert(e[2] == hex_char((v % 16) as nat));
            assert(e.skip(3) =~= er);
            assert((v / 16) * 16 + v % 16 == v);
            assert((((v / 16) as nat * 16 + (v % 16) as nat) as u8) == (v as u8));
            assert(v < 160);
            lemma_small_char_roundtrip(c);
            assert(seq![c] + rest =~= s);
        } else {
            assert(c != '%');
            assert(e[0] == c);
            assert(e.drop_first() =~= er);
            assert(seq![c] + rest =~= s);
        }
    }
}

/// No character of an escaped key is one that a table storage key may not
/// contain; the only `%` are those that start an escape.
pub open spec fn is_storage_safe(s: Seq<char>) -> bool {
    forall|i: int| 0 <= i < s.len() ==> (is_reserved_key_char(#[trigger] s[i]) ==> s[i] == '%')
}

/// An escaped key holds no character that a table storage key may not contain.
pub proof fn lemma_encode_is_storage_safe(s: Seq<char>)
    ensures
        is_storage_safe(spec_encode_safe_key(s)),
    decreases s.len(),
{
    if s.len() > 0 {
        lemma_encode_is_storage_safe(s.drop_first());
        let c = s[0];
        let e = spec_encode_safe_key(s);
        let er = spec_encode_safe_key(s.drop_first());
        let h = encode_key_char(c);
        assert(e == h + er);
        assert forall|i: int| 0 <= i < e.len() implies (is_reserved_key_char(#[trigger] e[i]) ==> e[i] == '%') by {
            if i < h.len() {
                assert(e[i] == h[i]);
                if is_reserved_key_char(c) {
                    let v = c as u32;
                    assert(v / 16 < 16);
                    assert(v % 16 < 16);
                }
            } else {
                assert(e[i] == er[i - h.len()]);
            }
        }
    }
}

fn hex_digit_char(d: u32) -> (c: char)
    requires
        d < 16,
    ensures
        c == hex_char(d as nat),
{
    if d < 10 {
        let b: u8 = 48u8 + (d as u8);
        b as char
    } else {
        let b: u8 = 55u8 + (d as u8);
        b as char
    }
}

fn hex_digit_value(c: char) -> (r: Option<u32>)
    ensures
        match r {
            Some(v) => hex_value(c) == Some(v as nat),
            None => hex_value(c) is None,
        },
{
    let v = c as u32;
    if 48 <= v && v <= 57 {
        Some(v - 48)
    } else if 65 <= v && v <= 70 {
        Some(v - 55)
    } else if 97 <= v && v <= 102 {
        Some(v - 87)
    } else {
        None
    }
}

fn is_reserved(c: char) -> (r: bool)
    ensures
        r == is_reserved_key_char(c),
{
    let v = c as u32;
    c == '/' || c == '\\' || c == '#' || c == '?' || c == '%' || v < 32 || (127 <= v && v < 160)
}

/// Appends the escaped form of `s` to `out`.
pub fn push_encoded_key(out: &mut Vec<char>, s: &[char])
    ensures
        final(out)@ == old(out)@ + spec_encode_safe_key(s@),
{
    let ghost start = out@;
    let mut i: usize = 0;
    while i < s.len()
        invariant
            i <= s@.len(),
            out@ == start + spec_encode_safe_key(s@.take(i as int)),
        decreases s@.len() - i,
    {
        let c = s[i];
        let ghost before = out@;
        if is_reserved(c) {
            let v = c as u32;
            out.push('%');
            out.push(hex_digit_char(v / 16));
            out.push(hex_digit_char(v % 16));
        } else {
            out.push(c);
        }
        proof {
            assert(out@ =~= before + encode_key_char(c));
            lemma_encode_concat(s@.take(i as int), seq![c]);
            assert(s@.take(i as int) + seq![c] =~= s@.take(i + 1));
            assert(seq![c].drop_first() =~= Seq::<char>::empty());
            assert(spec_encode_safe_key(seq![c]) =~= encode_key_char(c) + spec_encode_safe_key(Seq::<char>::empty()));
            assert(spec_encode_safe_key(seq![c]) =~= encode_key_char(c));
        }
        i = i + 1;
    }
    assert(s@.take(i as int) =~= s@);
}

/// Escapes the characters that a table storage key may not hold.
pub fn encode_safe_key(raw: &str) -> (key: String)
    ensures
        key@ == spec_encode_safe_key(raw@),
{
    let chars = str_chars(raw);
    let mut out: Vec<char> = Vec::new();
    push_encoded_key(&mut out, &chars);
    string_from_chars(&out)
}

/// Undoes `encode_safe_key`; `None` if the key holds a malformed escape.
pub fn decode_safe_key(key: &str) -> (raw: Option<String>)
    ensures
        match raw {
            Some(r) => spec_decode_safe_key(key@) == Some(r@),
            None => spec_decode_safe_key(key@) is None,
        },
{
    let s = str_chars(key);
    let mut out: Vec<char> = Vec::new();
    let mut i: usize = 0;
    assert(s@.skip(0) =~= s@);
    while i < s.len()
        invariant
            s@ == key@,
            i <= s@.len(),
            spec_decode_safe_key(s@) == match spec_decode_safe_key(s@.skip(i as int)) {
                Some(r) => Some(out@ + r),
                None => None::<Seq<char>>,
            },
        decreases s@.len() - i,
    {
        let ghost tail = s@.skip(i as int);
        let ghost before = out@;
        assert(tail.len() == s@.len() - i);
        assert(tail[0] == s@[i as int]);
        if s[i] == '%' {
            if s.len() - i > 2 {
                let hi = hex_digit_value(s[i + 1]);
                let lo = hex_digit_value(s[i + 2]);
                match (hi, lo) {
                    (Some(h), Some(l)) => {
                        let code: u32 = h * 16 + l;
                        let b: u8 = code as u8;
                        out.push(b as char);
                        proof {
                            assert(tail[1] == s@[i + 1]);
                            assert(tail[2] == s@[i + 2]);
                            assert(tail.skip(3) =~= s@.skip(i + 3));
                            assert(((h as nat * 16 + l as nat) as u8) == b);
                            match spec_decode_safe_key(s@.skip(i + 3)) {
                                Some(r) => {
                                    assert(out@ + r =~= before + (seq![(b as char)] + r));
                                },
                                None => {},
                            }
                        }
                        i = i + 3;
                    },
                    _ => {
                        proof {
                            assert(tail[1] == s@[i + 1]);
                            assert(tail[2] == s@[i + 2]);
                            assert(hex_value(tail[1]) is None || hex_value(tail[2]) is None);
                            assert(spec_decode_safe_key(tail) is None);
                        }
                        return None;
                    },
                }
            } else {
                assert(spec_decode_safe_key(tail) is None);
                return None;
            }
        } else {
            out.push(s[i]);
            proof {
                assert(tail.drop_first() =~= s@.skip(i + 1));
                match spec_decode_safe_key(s@.skip(i + 1)) {
                    Some(r) => {
                        assert(out@ + r =~= before + (seq![s@[i as int]] + r));
                    },
                    None => {},
                }
            }
            i = i + 1;
        }
    }
    assert(s@.skip(i as int) =~= Seq::<char>::empty());
    assert(out@ + Seq::<char>::empty() =~= out@);
    Some(string_from_chars(&out))
}

/// An entity of the table storage: its keys, its version tag and its data.
#[derive(Debug, Clone)]
pub struct TableEntity<T> {
    pub partition_key: String,
    pub row_key: String,
    pub etag: Option<String>,
    /// Last modification, in milliseconds since the Unix epoch.
    pub timestamp: Option<i64>,
    pub payload: T,
}

/// The storage error that a table operation reports: the HTTP status of an
/// unexpected response, or another failure with its message.
#[derive(Clone, Debug, PartialEq, Eq)]
pub enum StorageError {
    UnexpectedStatus(u16),
    Other(String),
}

impl StorageError {
    /// The text that describes the failure.
    pub open spec fn spec_describe(self) -> Seq<char> {
        match self {
            StorageError::UnexpectedStatus(code) => "Unexpected HTTP status: "@ + spec_decimal(code as nat),
            StorageError::Other(msg) => msg@,
        }
    }

    /// The text that describes the failure.
    pub fn describe(&self) -> (s: String)
        ensures
            s@ == self.spec_describe(),
    {
        match self {
            StorageError::UnexpectedStatus(code) => {
                let mut v: Vec<char> = Vec::new();
                push_str(&mut v, "Unexpected HTTP status: ");
                push_decimal(&mut v, *code as u64);
                string_from_chars(&v)
            },
            StorageError::Other(msg) => msg.clone(),
        }
    }
}

/// A precondition failure: the entity already exists (409) or its etag no
/// longer matches (412).
pub open spec fn spec_is_precondition_error(err: StorageError) -> bool {
    match err {
        StorageError::UnexpectedStatus(code) => code == 409 || code == 412,
        StorageError::Other(_) => false,
    }
}

/// Whether a storage error is a conflict with the stored state.
pub fn is_precodition_error(err: &StorageError) -> (r: bool)
    ensures
        r == spec_is_precondition_error(*err),
{
    match err {
        StorageError::UnexpectedStatus(code) => *code == 409 || *code == 412,
        StorageError::Other(_) => false,
    }
}


/// An ASCII letter or digit, as a byte.
pub open spec fn is_ascii_alphanumeric_byte(b: u8) -> bool {
    (48 <= b <= 57) || (65 <= b <= 90) || (97 <= b <= 122)
}

/// Percent encoding of a byte string where every byte but the ASCII letters
/// and digits is written as `%` and two upper case hexadecimal digits.
pub open spec fn spec_percent_encode(bytes: Seq<u8>) -> Seq<char>
    decreases bytes.len(),
{
    if bytes.len() == 0 {
        seq![]
    } else {
        let b = bytes[0];
        let head = if is_ascii_alphanumeric_byte(b) {
            seq![b as char]
        } else {
            seq!['%', hex_char((b / 16) as nat), hex_char((b % 16) as nat)]
        };
        head + spec_percent_encode(bytes.drop_first())
    }
}

/// A character that a percent encoded text may hold: an ASCII letter or
/// digit, or `%`.
pub open spec fn is_percent_encoded_char(c: char) -> bool {
    ||| ('0' <= c && c <= '9')
    ||| ('A' <= c && c <= 'Z')
    ||| ('a' <= c && c <= 'z')
    ||| c == '%'
}

/// A percent encoded text holds only ASCII letters, digits and `%`, so a
/// filter query needs no further escaping.
pub proof fn lemma_percent_encode_is_url_safe(bytes: Seq<u8>)
    ensures
        forall|i: int| 0 <= i < spec_percent_encode(bytes).len()
            ==> is_percent_encoded_char(#[trigger] spec_percent_encode(bytes)[i]),
    decreases bytes.len(),
{
    if bytes.len() > 0 {
        lemma_percent_encode_is_url_safe(bytes.drop_first());
        let b = bytes[0];
        let rest = spec_percent_encode(bytes.drop_first());
        let head = if is_ascii_alphanumeric_byte(b) {
            seq![b as char]
        } else {
            seq!['%', hex_char((b / 16) as nat), hex_char((b % 16) as nat)]
        };
        let e = spec_percent_encode(bytes);
        assert(e == head + rest);
        assert forall|i: int| 0 <= i < e.len() implies is_percent_encoded_char(#[trigger] e[i]) by {
            if i < head.len() {
                assert(e[i] == head[i]);
                assert(b / 16 < 16);
                assert(b % 16 < 16);
            } else {
                assert(e[i] == rest[i - head.len()]);
            }
        }
    }
}

/// `utf8_percent_encode(s, NON_ALPHANUMERIC)` of `percent-encoding`, written
/// out: each byte of the UTF-8 text that is not an ASCII letter or digit is
/// replaced by `%` and its two upper case hexadecimal digits.
#[verifier::external_body]
fn percent_encode_non_alphanumeric(s: &str) -> (r: String)
    ensures
        r@ == spec_percent_encode(encode_utf8(s@)),
{
    percent_encoding::utf8_percent_encode(s, percent_encoding::NON_ALPHANUMERIC).to_string()
}

/// Whether a table storage filter condition selects the entity with the
/// given partition and row key. The conditions read here are those of the
/// key lookups: `PartitionKey eq '..' and RowKey eq '..'` holds of the
/// entity with exactly those keys, and two conditions joined as
/// `((..) or (..))` or `((..) and (..))` hold as the disjunction or the
/// conjunction of their parts. A text that reads in several ways selects
/// the entity when one reading does.
pub open spec fn spec_condition_selects(condition: Seq<char>, partition_key: Seq<char>, row_key: Seq<char>) -> bool
    decreases condition.len(),
{
    ||| condition == "PartitionKey eq '"@ + partition_key + "' and RowKey eq '"@ + row_key + "'"@
    ||| exists|a: Seq<char>, b: Seq<char>|
        #![trigger "(("@ + a + ") or ("@ + b + "))"@]
        condition == "(("@ + a + ") or ("@ + b + "))"@ && a.len() < condition.len() && b.len() < condition.len()
            && (spec_condition_selects(a, partition_key, row_key) || spec_condition_selects(b, partition_key, row_key))
    ||| exists|a: Seq<char>, b: Seq<char>|
        #![trigger "(("@ + a + ") and ("@ + b + "))"@]
        condition == "(("@ + a + ") and ("@ + b + "))"@ && a.len() < condition.len() && b.len() < condition.len()
            && spec_condition_selects(a, partition_key, row_key) && spec_condition_selects(b, partition_key, row_key)
}

/// A key lookup condition selects the entity with its keys.
pub proof fn lemma_key_condition_selects(partition_key: Seq<char>, row_key: Seq<char>)
    ensures
        spec_condition_selects(
            "PartitionKey eq '"@ + partition_key + "' and RowKey eq '"@ + row_key + "'"@, partition_key, row_key),
{
}

/// A disjunction of conditions selects what either part selects.
pub proof fn lemma_or_condition_selects(a: Seq<char>, b: Seq<char>, partition_key: Seq<char>, row_key: Seq<char>)
    requires
        spec_condition_selects(a, partition_key, row_key) || spec_condition_selects(b, partition_key, row_key),
    ensures
        spec_condition_selects("(("@ + a + ") or ("@ + b + "))"@, partition_key, row_key),
{
    let c = "(("@ + a + ") or ("@ + b + "))"@;
    assert(c.len() == a.len() + b.len() + 10) by {
        reveal_strlit("((");
        reveal_strlit(") or (");
        reveal_strlit("))");
    }
}

/// A filter query of the table storage: `$filter=` and the percent encoded
/// condition.
pub open spec fn spec_filter_query(condition: Seq<char>) -> Seq<char> {
    "$filter="@ + spec_percent_encode(encode_utf8(condition))
}

/// The filter query for the given condition.
pub fn filter_query(condition: &str) -> (q: String)
    ensures
        q@ == spec_filter_query(condition@),
{
    let encoded = percent_encode_non_alphanumeric(condition);
    concat_str("$filter=", encoded.as_str())
}

} // verus!
