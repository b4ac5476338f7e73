use vstd::prelude::*;

use crate::kitty::{
    action_of, compression_of, default_kitty, delete_of, medium_of, Kitty, KittyAction,
    KittyCompression, KittyDelete, KittyMedium,
};
use vstd::string::{StrSliceExecFns, StringExecFns};

verus! {

/// The largest explicit image id.
pub const MAX_ID: usize = 4294967295;

/// Why a command could not be decoded.
#[derive(Debug, Clone, Copy, PartialEq, Eq, Structural)]
pub enum KittyErrorKind {
    /// The key letter names no field.
    UnknownKey,
    /// The value does not have the shape of the field: not a decimal number, not a
    /// known single-letter code, not `0` or `1`.
    InvalidValue,
    /// The value is a decimal number outside the bounds of the field.
    OutOfRange,
}

/// A decode failure: what went wrong, with the key and the raw value of the offending pair.
#[derive(Debug, PartialEq, Eq)]
pub struct KittyError {
    pub kind: KittyErrorKind,
    pub key: char,
    pub value: String,
}

impl View for KittyError {
    type V = (KittyErrorKind, char, Seq<char>);

    open spec fn view(&self) -> (KittyErrorKind, char, Seq<char>) {
        (self.kind, self.key, self.value@)
    }
}

/// Whether `c` is an ASCII decimal digit.
pub open spec fn is_digit(c: char) -> bool {
    '0' <= c <= '9'
}

/// Whether `v` is a non-empty run of decimal digits.
pub open spec fn is_decimal(v: Seq<char>) -> bool {
    v.len() > 0 && forall|i: int| 0 <= i < v.len() ==> is_digit(#[trigger] v[i])
}

/// The number that a run of decimal digits spells.
pub open spec fn decimal_value(v: Seq<char>) -> nat
    decreases v.len(),
{
    if v.len() == 0 {
        0
    } else {
        decimal_value(v.drop_last()) * 10 + (v.last() as nat - '0' as nat) as nat
    }
}

/// A value read as an unsigned number: `InvalidValue` unless it is a run of decimal
/// digits, `OutOfRange` where the number does not fit in a `usize`.
pub open spec fn number_of(v: Seq<char>) -> Result<usize, KittyErrorKind> {
    if !is_decimal(v) {
        Err(KittyErrorKind::InvalidValue)
    } else if decimal_value(v) > usize::MAX {
        Err(KittyErrorKind::OutOfRange)
    } else {
        Ok(decimal_value(v) as usize)
    }
}

/// A value read as a signed number, of which only the magnitude is kept.
pub open spec fn magnitude_of(v: Seq<char>) -> Result<usize, KittyErrorKind> {
    if v.len() > 0 && v[0] == '-' {
        number_of(v.drop_first())
    } else {
        number_of(v)
    }
}

/// A value read as an image id: a number from 1 to `MAX_ID`.
pub open spec fn id_of(v: Seq<char>) -> Result<usize, KittyErrorKind> {
    match number_of(v) {
        Ok(n) => if 1 <= n <= MAX_ID {
            Ok(n)
        } else {
            Err(KittyErrorKind::OutOfRange)
        },
        Err(e) => Err(e),
    }
}

/// A value read as a pixel format: 24, 32 or 100.
pub open spec fn format_of(v: Seq<char>) -> Result<usize, KittyErrorKind> {
    match number_of(v) {
        Ok(n) => if n == 24 || n == 32 || n == 100 {
            Ok(n)
        } else {
            Err(KittyErrorKind::OutOfRange)
        },
        Err(e) => Err(e),
    }
}

/// The only character of a one-character value.
pub open spec fn single_of(v: Seq<char>) -> Option<char> {
    if v.len() == 1 {
        Some(v[0])
    } else {
        None
    }
}

/// A value read as a flag: `0` or `1`.
pub open spec fn flag_of(v: Seq<char>) -> Result<bool, KittyErrorKind> {
    match single_of(v) {
        Some('0') => Ok(false),
        Some('1') => Ok(true),
        _ => Err(KittyErrorKind::InvalidValue),
    }
}

/// A value read as a single letter looked up in a code table.
pub open spec fn code_of<T>(v: Seq<char>, table: spec_fn(char) -> Option<T>) -> Result<
    T,
    KittyErrorKind,
> {
    match single_of(v) {
        Some(c) => match table(c) {
            Some(x) => Ok(x),
            None => Err(KittyErrorKind::InvalidValue),
        },
        None => Err(KittyErrorKind::InvalidValue),
    }
}

/// Whether `key` names a field of a command.
pub open spec fn is_key(key: char) -> bool {
    key == 'a' || key == 'f' || key == 't' || key == 's' || key == 'v' || key == 'S' || key
        == 'O' || key == 'i' || key == 'o' || key == 'm' || key == 'x' || key == 'y' || key
        == 'w' || key == 'h' || key == 'X' || key == 'Y' || key == 'c' || key == 'r' || key
        == 'z' || key == 'd'
}

/// The command `k` with the pair `key=v` applied to it, or why the pair is rejected.
pub open spec fn apply_pair(k: Kitty, key: char, v: Seq<char>) -> Result<Kitty, KittyErrorKind> {
    match key {
        'a' => match code_of(v, |c| action_of(c)) {
            Ok(a) => Ok(Kitty { action: a, ..k }),
            Err(e) => Err(e),
        },
        'f' => match format_of(v) {
            Ok(n) => Ok(Kitty { format: n, ..k }),
            Err(e) => Err(e),
        },
        't' => match code_of(v, |c| medium_of(c)) {
            Ok(m) => Ok(Kitty { medium: m, ..k }),
            Err(e) => Err(e),
        },
        's' => match number_of(v) {
            Ok(n) => Ok(Kitty { width: n, ..k }),
            Err(e) => Err(e),
        },
        'v' => match number_of(v) {
            Ok(n) => Ok(Kitty { height: n, ..k }),
            Err(e) => Err(e),
        },
        'S' => match number_of(v) {
            Ok(n) => Ok(Kitty { size: n, ..k }),
            Err(e) => Err(e),
        },
        'O' => match number_of(v) {
            Ok(n) => Ok(Kitty { offset: n, ..k }),
            Err(e) => Err(e),
        },
        'i' => match id_of(v) {
            Ok(n) => Ok(Kitty { id: n, ..k }),
            Err(e) => Err(e),
        },
        'o' => match code_of(v, |c| compression_of(c)) {
            Ok(o) => Ok(Kitty { compression: o, ..k }),
            Err(e) => Err(e),
        },
        'm' => match flag_of(v) {
            Ok(b) => Ok(Kitty { chunked: b, ..k }),
            Err(e) => Err(e),
        },
        'x' => match number_of(v) {
            Ok(n) => Ok(Kitty { x_pos: n, ..k }),
            Err(e) => Err(e),
        },
        'y' => match number_of(v) {
            Ok(n) => Ok(Kitty { y_pos: n, ..k }),
            Err(e) => Err(e),
        },
        'w' => match number_of(v) {
            Ok(n) => Ok(Kitty { x_size: n, ..k }),
            Err(e) => Err(e),
        },
        'h' => match number_of(v) {
            Ok(n) => Ok(Kitty { y_size: n, ..k }),
            Err(e) => Err(e),
        },
        'X' => match number_of(v) {
            Ok(n) => Ok(Kitty { x_offset: n, ..k }),
            Err(e) => Err(e),
        },
        'Y' => match number_of(v) {
            Ok(n) => Ok(Kitty { y_offset: n, ..k }),
            Err(e) => Err(e),
        },
        'c' => match number_of(v) {
            Ok(n) => Ok(Kitty { columns: n, ..k }),
            Err(e) => Err(e),
        },
        'r' => match number_of(v) {
            Ok(n) => Ok(Kitty { rows: n, ..k }),
            Err(e) => Err(e),
        },
        'z' => match magnitude_of(v) {
            Ok(n) => Ok(Kitty { z_index: n, ..k }),
            Err(e) => Err(e),
        },
        'd' => match code_of(v, |c| delete_of(c)) {
            Ok(p) => Ok(Kitty { delete: p.0, free: p.1, ..k }),
            Err(e) => Err(e),
        },
        _ => Err(KittyErrorKind::UnknownKey),
    }
}

/// The pairs of a command with each value as its characters.
pub open spec fn pairs_view(tokens: Seq<(char, &str)>) -> Seq<(char, Seq<char>)> {
    tokens.map_values(|t: (char, &str)| (t.0, t.1@))
}

/// The result of decoding `pairs` in order from the default command: the first pair
/// that is rejected decides the error, and a later pair with the same key overrides an
/// earlier one.
pub open spec fn decoded(pairs: Seq<(char, Seq<char>)>) -> Result<
    Kitty,
    (KittyErrorKind, char, Seq<char>),
>
    decreases pairs.len(),
{
    if pairs.len() == 0 {
        Ok(default_kitty())
    } else {
        let (key, v) = pairs.last();
        match decoded(pairs.drop_last()) {
            Ok(k) => match apply_pair(k, key, v) {
                Ok(k2) => Ok(k2),
                Err(e) => Err((e, key, v)),
            },
            Err(e) => Err(e),
        }
    }
}

proof fn lemma_decimal_value_mono(v: Seq<char>, i: int, j: int)
    requires
        0 <= i <= j <= v.len(),
        forall|n: int| 0 <= n < v.len() ==> is_digit(#[trigger] v[n]),
    ensures
        decimal_value(v.subrange(0, i)) <= decimal_value(v.subrange(0, j)),
    decreases j - i,
{
    if i < j {
        lemma_decimal_value_mono(v, i, j - 1);
        let w = v.subrange(0, j);
        assert(w.drop_last() =~= v.subrange(0, j - 1));
        assert(is_digit(v[j - 1]));
    }
}

/// Reads a value as an unsigned number.
pub fn parse_number(v: &str) -> (r: Result<usize, KittyErrorKind>)
    ensures
        r == number_of(v@),
{
    let len = v.unicode_len();
    if len == 0 {
        return Err(KittyErrorKind::InvalidValue);
    }
    let mut i: usize = 0;
    while i < len
        invariant
            len == v@.len(),
            i <= len,
            forall|n: int| 0 <= n < i ==> is_digit(#[trigger] v@[n]),
        decreases len - i,
    {
        let c = v.get_char(i);
        if !('0' <= c && c <= '9') {
            assert(!is_decimal(v@));
            return Err(KittyErrorKind::InvalidValue);
        }
        i = i + 1;
    }
    assert(is_decimal(v@));
    let mut acc: usize = 0;
    let mut i: usize = 0;
    while i < len
        invariant
            len == v@.len(),
            i <= len,
            is_decimal(v@),
            acc as nat == decimal_value(v@.subrange(0, i as int)),
        decreases len - i,
    {
        let d = (v.get_char(i) as u32 - '0' as u32) as usize;
        assert(v@.subrange(0, i + 1).drop_last() =~= v@.subrange(0, i as int));
        assert(is_digit(v@[i as int]));
        if acc > (usize::MAX - d) / 10 {
            assert(decimal_value(v@.subrange(0, i + 1)) > usize::MAX) by (nonlinear_arith)
                requires
                    acc > (usize::MAX - d) / 10,
                    decimal_value(v@.subrange(0, i + 1)) == acc * 10 + d,
                    d <= 9,
            ;
            proof {
                lemma_decimal_value_mono(v@, i + 1, len as int);
                assert(v@.subrange(0, len as int) =~= v@);
            }
            return Err(KittyErrorKind::OutOfRange);
        }
        assert(acc * 10 + d <= usize::MAX) by (nonlinear_arith)
            requires
                acc <= (usize::MAX - d) / 10,
                d <= 9,
        ;
        acc = acc * 10 + d;
        i = i + 1;
    }
    assert(v@.subrange(0, len as int) =~= v@);
    Ok(acc)
}


/// Reads a value as a signed number and keeps its magnitude.
pub fn parse_magnitude(v: &str) -> (r: Result<usize, KittyErrorKind>)
    ensures
        r == magnitude_of(v@),
{
    let len = v.unicode_len();
    if len > 0 && v.get_char(0) == '-' {
        let rest = v.substring_char(1, len);
        assert(rest@ =~= v@.drop_first());
        parse_number(rest)
    } else {
        parse_number(v)
    }
}

/// The only character of a one-character value.
fn single_char(v: &str) -> (r: Option<char>)
    ensures
        r == single_of(v@),
{
    if v.unicode_len() == 1 {
        Some(v.get_char(0))
    } else {
        None
    }
}

impl Kitty {
    /// Applies the pair `key=value` to this command. On failure the command is unchanged
    /// and the error says why the pair was rejected.
    pub fn apply(&mut self, key: char, value: &str) -> (r: Result<(), KittyErrorKind>)
        ensures
            match apply_pair(*old(self), key, value@) {
                Ok(k) => r is Ok && *final(self) == k,
                Err(e) => r == Err::<(), KittyErrorKind>(e) && *final(self) == *old(self),
            },
    {
        match key {
            'a' => match single_char(value) {
                Some(c) => match KittyAction::from_code(c) {
                    Some(a) => {
                        self.action = a;
                        Ok(())
                    },
                    None => Err(KittyErrorKind::InvalidValue),
                },
                None => Err(KittyErrorKind::InvalidValue),
            },
            'f' => {
                let n = parse_number(value)?;
                if n == 24 || n == 32 || n == 100 {
                    self.format = n;
                    Ok(())
                } else {
                    Err(KittyErrorKind::OutOfRange)
                }
            },
            't' => match single_char(value) {
                Some(c) => match KittyMedium::from_code(c) {
                    Some(m) => {
                        self.medium = m;
                        Ok(())
                    },
                    None => Err(KittyErrorKind::InvalidValue),
                },
                None => Err(KittyErrorKind::InvalidValue),
            },
            's' => {
                self.width = parse_number(value)?;
                Ok(())
            },
            'v' => {
                self.height = parse_number(value)?;
                Ok(())
            },
            'S' => {
                self.size = parse_number(value)?;
                Ok(())
            },
            'O' => {
                self.offset = parse_number(value)?;
                Ok(())
            },
            'i' => {
                let n = parse_number(value)?;
                if 1 <= n && n <= MAX_ID {
                    self.id = n;
                    Ok(())
                } else {
                    Err(KittyErrorKind::OutOfRange)
                }
            },
            'o' => match single_char(value) {
                Some(c) => match KittyCompression::from_code(c) {
                    Some(o) => {
                        self.compression = o;
                        Ok(())
                    },
                    None => Err(KittyErrorKind::InvalidValue),
                },
                None => Err(KittyErrorKind::InvalidValue),
            },
            'm' => match single_char(value) {
                Some('0') => {
                    self.chunked = false;
                    Ok(())
                },
                Some('1') => {
                    self.chunked = true;
                    Ok(())
                },
                _ => Err(KittyErrorKind::InvalidValue),
            },
            'x' => {
                self.x_pos = parse_number(value)?;
                Ok(())
            },
            'y' => {
                self.y_pos = parse_number(value)?;
                Ok(())
            },
            'w' => {
                self.x_size = parse_number(value)?;
                Ok(())
            },
            'h' => {
                self.y_size = parse_number(value)?;
                Ok(())
            },
            'X' => {
                self.x_offset = parse_number(value)?;
                Ok(())
            },
            'Y' => {
                self.y_offset = parse_number(value)?;
                Ok(())
            },
            'c' => {
                self.columns = parse_number(value)?;
                Ok(())
            },
            'r' => {
                self.rows = parse_number(value)?;
                Ok(())
            },
            'z' => {
                self.z_index = parse_magnitude(value)?;
                Ok(())
            },
            'd' => match single_char(value) {
                Some(c) => match KittyDelete::from_code(c) {
                    Some((d, free)) => {
                        self.delete = d;
                        self.free = free;
                        Ok(())
                    },
                    None => Err(KittyErrorKind::InvalidValue),
                },
                None => Err(KittyErrorKind::InvalidValue),
            },
            _ => Err(KittyErrorKind::UnknownKey),
        }
    }
}

/// Decodes the `key=value` pairs of one command, in order, starting from the default
/// command. The first rejected pair aborts the decode and is named in the error.
pub fn decode(tokens: &[(char, &str)]) -> (r: Result<Kitty, KittyError>)
    ensures
        match r {
            Ok(k) => decoded(pairs_view(tokens@)) == Ok::<
                Kitty,
                (KittyErrorKind, char, Seq<char>),
            >(k),
            Err(e) => decoded(pairs_view(tokens@)) == Err::<Kitty, (KittyErrorKind, char, Seq<char>)>(
                e@,
            ),
        },
{
    let mut k = Kitty();
    let mut i: usize = 0;
    while i < tokens.len()
        invariant
            i <= tokens@.len(),
            decoded(pairs_view(tokens@).take(i as int)) == Ok::<
                Kitty,
                (KittyErrorKind, char, Seq<char>),
            >(k),
        decreases tokens@.len() - i,
    {
        let (key, value) = tokens[i];
        assert(pairs_view(tokens@).take(i + 1).drop_last() =~= pairs_view(tokens@).take(i as int));
        match k.apply(key, value) {
            Ok(()) => {},
            Err(kind) => {
                proof {
                    lemma_decoded_error_stays(pairs_view(tokens@), i + 1);
                }
                return Err(KittyError { kind, key, value: value.to_string() });
            },
        }
        i = i + 1;
    }
    assert(pairs_view(tokens@).take(tokens@.len() as int) =~= pairs_view(tokens@));
    Ok(k)
}

/// Once a prefix of the pairs is rejected, the whole sequence is rejected with the same error.
proof fn lemma_decoded_error_stays(pairs: Seq<(char, Seq<char>)>, n: int)
    requires
        0 <= n <= pairs.len(),
        decoded(pairs.take(n)) is Err,
    ensures
        decoded(pairs) == decoded(pairs.take(n)),
    decreases pairs.len() - n,
{
    if n < pairs.len() {
        assert(pairs.take(n + 1).drop_last() =~= pairs.take(n));
        lemma_decoded_error_stays(pairs, n + 1);
    } else {
        assert(pairs.take(n) =~= pairs);
    }
}

} // verus!
