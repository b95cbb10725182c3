//! The type-erased scalar value that every query returns, with its equality,
//! ordering and addition semantics.
//!
//! Equality and ordering are defined only between values of the same variant;
//! a cross-variant comparison is incomparable, never an error. Addition is
//! defined only for matching addable variants: asking for anything else is a
//! programming error, so `field_add` excludes it by precondition instead of
//! aborting the process.

use crate::process::PidState;
use core::cmp::Ordering;
use vstd::prelude::*;

verus! {

/// A single queried value: one of the scalar shapes a model field can take.
/// `Milli` carries the fixed-point milli-unit metrics of the rate engine.
#[derive(Clone, Debug, PartialEq)]
pub enum Field {
    U32(u32),
    U64(u64),
    I32(i32),
    I64(i64),
    Milli(i64),
    Str(String),
    PidState(PidState),
}

/// The position of an execution state in the ordering the kernel's one-letter
/// codes suggest: the declaration order of the variants.
pub open spec fn state_rank(s: PidState) -> int {
    match s {
        PidState::Running => 0,
        PidState::Sleeping => 1,
        PidState::UninterruptibleSleep => 2,
        PidState::Stopped => 3,
        PidState::TracingStopped => 4,
        PidState::Zombie => 5,
        PidState::Dead => 6,
        PidState::Idle => 7,
        PidState::Parked => 8,
    }
}

fn state_rank_exec(s: PidState) -> (r: u8)
    ensures
        r == state_rank(s),
{
    match s {
        PidState::Running => 0,
        PidState::Sleeping => 1,
        PidState::UninterruptibleSleep => 2,
        PidState::Stopped => 3,
        PidState::TracingStopped => 4,
        PidState::Zombie => 5,
        PidState::Dead => 6,
        PidState::Idle => 7,
        PidState::Parked => 8,
    }
}

/// Lexicographic order of two character sequences by code point, which for
/// valid text is the same order their UTF-8 bytes have.
pub open spec fn lex_cmp(a: Seq<char>, b: Seq<char>) -> Ordering
    decreases a.len(),
{
    if a.len() == 0 && b.len() == 0 {
        Ordering::Equal
    } else if a.len() == 0 {
        Ordering::Less
    } else if b.len() == 0 {
        Ordering::Greater
    } else if (a[0] as u32) < (b[0] as u32) {
        Ordering::Less
    } else if (a[0] as u32) > (b[0] as u32) {
        Ordering::Greater
    } else {
        lex_cmp(a.drop_first(), b.drop_first())
    }
}

/// Equal characters at the scan position leave the comparison to the rest.
proof fn lemma_lex_cmp_step(a: Seq<char>, b: Seq<char>, i: int)
    requires
        0 <= i < a.len(),
        i < b.len(),
        a[i] == b[i],
    ensures
        lex_cmp(a.skip(i), b.skip(i)) == lex_cmp(a.skip(i + 1), b.skip(i + 1)),
{
    assert(a.skip(i)[0] == a[i]);
    assert(b.skip(i)[0] == b[i]);
    assert(a.skip(i).drop_first() =~= a.skip(i + 1));
    assert(b.skip(i).drop_first() =~= b.skip(i + 1));
}

/// Unequal characters at the scan position decide the comparison.
proof fn lemma_lex_cmp_found(a: Seq<char>, b: Seq<char>, i: int)
    requires
        0 <= i < a.len(),
        i < b.len(),
    ensures
        (a[i] as u32) < (b[i] as u32) ==> lex_cmp(a.skip(i), b.skip(i)) == Ordering::Less,
        (a[i] as u32) > (b[i] as u32) ==> lex_cmp(a.skip(i), b.skip(i)) == Ordering::Greater,
{
    assert(a.skip(i)[0] == a[i]);
    assert(b.skip(i)[0] == b[i]);
}

/// Compare two strings lexicographically by code point.
pub fn str_cmp(a: &str, b: &str) -> (r: Ordering)
    ensures
        r == lex_cmp(a@, b@),
{
    let alen = a.unicode_len();
    let blen = b.unicode_len();
    let n = if alen < blen {
        alen
    } else {
        blen
    };
    proof {
        assert(a@.skip(0) =~= a@);
        assert(b@.skip(0) =~= b@);
    }
    for i in 0..n
        invariant
            n <= alen && n <= blen,
            alen == a@.len(),
            blen == b@.len(),
            n == if alen < blen {
                alen
            } else {
                blen
            },
            lex_cmp(a@, b@) == lex_cmp(a@.skip(i as int), b@.skip(i as int)),
    {
        let ca = a.get_char(i);
        let cb = b.get_char(i);
        if (ca as u32) < (cb as u32) {
            proof {
                lemma_lex_cmp_found(a@, b@, i as int);
            }
            return Ordering::Less;
        }
        if (ca as u32) > (cb as u32) {
            proof {
                lemma_lex_cmp_found(a@, b@, i as int);
            }
            return Ordering::Greater;
        }
        proof {
            lemma_lex_cmp_step(a@, b@, i as int);
        }
    }
    proof {
        assert(a@.skip(n as int).len() == alen - n);
        assert(b@.skip(n as int).len() == blen - n);
    }
    if alen < blen {
        Ordering::Less
    } else if alen > blen {
        Ordering::Greater
    } else {
        Ordering::Equal
    }
}

/// When two fields are equal: same variant, same value; different variants
/// are never equal. String equality is by contents.
pub open spec fn field_eq_spec(a: Field, b: Field) -> bool {
    match (a, b) {
        (Field::U32(x), Field::U32(y)) => x == y,
        (Field::U64(x), Field::U64(y)) => x == y,
        (Field::I32(x), Field::I32(y)) => x == y,
        (Field::I64(x), Field::I64(y)) => x == y,
        (Field::Milli(x), Field::Milli(y)) => x == y,
        (Field::Str(x), Field::Str(y)) => x@ == y@,
        (Field::PidState(x), Field::PidState(y)) => x == y,
        _ => false,
    }
}

/// Equality of two queried values: defined within one variant, false across
/// variants.
pub fn field_eq(a: &Field, b: &Field) -> (r: bool)
    ensures
        r == field_eq_spec(*a, *b),
{
    match (a, b) {
        (Field::U32(x), Field::U32(y)) => *x == *y,
        (Field::U64(x), Field::U64(y)) => *x == *y,
        (Field::I32(x), Field::I32(y)) => *x == *y,
        (Field::I64(x), Field::I64(y)) => *x == *y,
        (Field::Milli(x), Field::Milli(y)) => *x == *y,
        (Field::Str(x), Field::Str(y)) => *x == *y,
        (Field::PidState(x), Field::PidState(y)) => *x == *y,
        _ => false,
    }
}

/// The order of two integers, as a spec value.
pub open spec fn int_cmp(x: int, y: int) -> Ordering {
    if x < y {
        Ordering::Less
    } else if x > y {
        Ordering::Greater
    } else {
        Ordering::Equal
    }
}

/// How two fields compare: a total order within one variant, incomparable
/// across variants.
pub open spec fn field_cmp_spec(a: Field, b: Field) -> Option<Ordering> {
    match (a, b) {
        (Field::U32(x), Field::U32(y)) => Some(int_cmp(x as int, y as int)),
        (Field::U64(x), Field::U64(y)) => Some(int_cmp(x as int, y as int)),
        (Field::I32(x), Field::I32(y)) => Some(int_cmp(x as int, y as int)),
        (Field::I64(x), Field::I64(y)) => Some(int_cmp(x as int, y as int)),
        (Field::Milli(x), Field::Milli(y)) => Some(int_cmp(x as int, y as int)),
        (Field::Str(x), Field::Str(y)) => Some(lex_cmp(x@, y@)),
        (Field::PidState(x), Field::PidState(y)) => Some(int_cmp(state_rank(x), state_rank(y))),
        _ => None,
    }
}

/// Compare two queried values: `None` marks an incomparable cross-variant
/// pair, which the sorting layer treats as neither greater nor less.
pub fn field_cmp(a: &Field, b: &Field) -> (r: Option<Ordering>)
    ensures
        r == field_cmp_spec(*a, *b),
{
    match (a, b) {
        (Field::U32(x), Field::U32(y)) => Some(cmp_u32(*x, *y)),
        (Field::U64(x), Field::U64(y)) => Some(cmp_u64(*x, *y)),
        (Field::I32(x), Field::I32(y)) => Some(cmp_i32(*x, *y)),
        (Field::I64(x), Field::I64(y)) => Some(cmp_i64(*x, *y)),
        (Field::Milli(x), Field::Milli(y)) => Some(cmp_i64(*x, *y)),
        (Field::Str(x), Field::Str(y)) => Some(str_cmp(x.as_str(), y.as_str())),
        (Field::PidState(x), Field::PidState(y)) => Some(
            cmp_u32(state_rank_exec(*x) as u32, state_rank_exec(*y) as u32),
        ),
        _ => None,
    }
}

fn cmp_u32(x: u32, y: u32) -> (r: Ordering)
    ensures
        r == int_cmp(x as int, y as int),
{
    if x < y {
        Ordering::Less
    } else if x > y {
        Ordering::Greater
    } else {
        Ordering::Equal
    }
}

fn cmp_u64(x: u64, y: u64) -> (r: Ordering)
    ensures
        r == int_cmp(x as int, y as int),
{
    if x < y {
        Ordering::Less
    } else if x > y {
        Ordering::Greater
    } else {
        Ordering::Equal
    }
}

fn cmp_i32(x: i32, y: i32) -> (r: Ordering)
    ensures
        r == int_cmp(x as int, y as int),
{
    if x < y {
        Ordering::Less
    } else if x > y {
        Ordering::Greater
    } else {
        Ordering::Equal
    }
}

fn cmp_i64(x: i64, y: i64) -> (r: Ordering)
    ensures
        r == int_cmp(x as int, y as int),
{
    if x < y {
        Ordering::Less
    } else if x > y {
        Ordering::Greater
    } else {
        Ordering::Equal
    }
}

/// When two fields can be added: matching addable variants whose sum stays in
/// range. Anything else is a query/field mismatch, a programming error that
/// correct `FieldId` construction makes unreachable.
pub open spec fn field_addable(a: Field, b: Field) -> bool {
    match (a, b) {
        (Field::U32(x), Field::U32(y)) => x + y <= u32::MAX,
        (Field::U64(x), Field::U64(y)) => x + y <= u64::MAX,
        (Field::I32(x), Field::I32(y)) => i32::MIN <= x + y <= i32::MAX,
        (Field::I64(x), Field::I64(y)) => i64::MIN <= x + y <= i64::MAX,
        (Field::Milli(x), Field::Milli(y)) => i64::MIN <= x + y <= i64::MAX,
        (Field::Str(_), Field::Str(_)) => true,
        _ => false,
    }
}

/// Add two queried values of one addable variant: numbers add, strings
/// concatenate. Mismatched variants are excluded by precondition.
pub fn field_add(a: Field, b: Field) -> (r: Field)
    requires
        field_addable(a, b),
    ensures
        match (a, b) {
            (Field::U32(x), Field::U32(y)) => r == Field::U32((x + y) as u32),
            (Field::U64(x), Field::U64(y)) => r == Field::U64((x + y) as u64),
            (Field::I32(x), Field::I32(y)) => r == Field::I32((x + y) as i32),
            (Field::I64(x), Field::I64(y)) => r == Field::I64((x + y) as i64),
            (Field::Milli(x), Field::Milli(y)) => r == Field::Milli((x + y) as i64),
            (Field::Str(x), Field::Str(y)) => r matches Field::Str(s) && s@ == x@ + y@,
            _ => false,
        },
{
    match (a, b) {
        (Field::U32(x), Field::U32(y)) => Field::U32(x + y),
        (Field::U64(x), Field::U64(y)) => Field::U64(x + y),
        (Field::I32(x), Field::I32(y)) => Field::I32(x + y),
        (Field::I64(x), Field::I64(y)) => Field::I64(x + y),
        (Field::Milli(x), Field::Milli(y)) => Field::Milli(x + y),
        (Field::Str(x), Field::Str(y)) => Field::Str(x.concat(y.as_str())),
        _ => {
            proof {
                assert(false);
            }
            Field::U32(0)
        },
    }
}

/// Take the signed integer a field carries; defined for the two signed
/// integer variants alone, as the conversion contract promises.
pub fn field_into_i64(f: Field) -> (r: i64)
    requires
        f is I32 || f is I64,
    ensures
        f matches Field::I32(x) ==> r == x as i64,
        f matches Field::I64(x) ==> r == x,
{
    match f {
        Field::I32(x) => x as i64,
        Field::I64(x) => x,
        _ => {
            proof {
                assert(false);
            }
            0
        },
    }
}

/// Take the string a field carries; defined for the string variant alone.
pub fn field_into_string(f: Field) -> (r: String)
    requires
        f is Str,
    ensures
        f matches Field::Str(s) ==> r == s,
{
    match f {
        Field::Str(s) => s,
        _ => {
            proof {
                assert(false);
            }
            String::new()
        },
    }
}


/// Lexicographic comparison is antisymmetric: read the other way around, the
/// order flips.
proof fn lemma_lex_cmp_flip(a: Seq<char>, b: Seq<char>)
    ensures
        lex_cmp(a, b) == Ordering::Less <==> lex_cmp(b, a) == Ordering::Greater,
        lex_cmp(a, b) == Ordering::Equal <==> lex_cmp(b, a) == Ordering::Equal,
    decreases a.len(),
{
    if a.len() > 0 && b.len() > 0 && (a[0] as u32) == (b[0] as u32) {
        lemma_lex_cmp_flip(a.drop_first(), b.drop_first());
    }
}

/// Field comparison is antisymmetric: the order of a comparable pair flips
/// with its operands, and an incomparable pair stays incomparable.
pub proof fn lemma_field_cmp_antisym(a: Field, b: Field)
    ensures
        field_cmp_spec(a, b) == Some(Ordering::Greater) ==> field_cmp_spec(b, a) == Some(
            Ordering::Less,
        ),
        field_cmp_spec(a, b) == Some(Ordering::Less) ==> field_cmp_spec(b, a) == Some(
            Ordering::Greater,
        ),
        field_cmp_spec(a, b) == Some(Ordering::Equal) ==> field_cmp_spec(b, a) == Some(
            Ordering::Equal,
        ),
        field_cmp_spec(a, b) is None ==> field_cmp_spec(b, a) is None,
{
    match (a, b) {
        (Field::Str(x), Field::Str(y)) => {
            lemma_lex_cmp_flip(x@, y@);
            lemma_lex_cmp_flip(y@, x@);
        },
        _ => {},
    }
}



/// Two characters with the same code point are the same character.
pub proof fn lemma_char_inj(c1: char, c2: char)
    requires
        (c1 as u32) == (c2 as u32),
    ensures
        c1 == c2,
{
}

/// Two sequences compare `Equal` exactly when they are the same text.
pub proof fn lemma_lex_cmp_equal_iff(a: Seq<char>, b: Seq<char>)
    ensures
        (lex_cmp(a, b) == Ordering::Equal) <==> (a == b),
    decreases a.len(),
{
    if a.len() == 0 && b.len() == 0 {
        assert(a =~= b);
    } else if a.len() > 0 && b.len() > 0 {
        if (a[0] as u32) == (b[0] as u32) {
            lemma_lex_cmp_equal_iff(a.drop_first(), b.drop_first());
            if a.drop_first() == b.drop_first() {
                assert forall|i: int| 0 <= i < a.len() implies a[i] == b[i] by {
                    if i > 0 {
                        assert(a[i] == a.drop_first()[i - 1]);
                        assert(b[i] == b.drop_first()[i - 1]);
                    } else {
                        assert((a[0] as u32) == (b[0] as u32));
                        lemma_char_inj(a[0], b[0]);
                    }
                }
                assert(a =~= b);
            }
            if a == b {
                assert(a.drop_first() =~= b.drop_first());
            }
        } else {
            assert(a != b);
        }
    } else {
        assert(a.len() != b.len());
    }
}

/// Whether two strings hold the same text.
pub fn str_eq(a: &str, b: &str) -> (r: bool)
    ensures
        r == (a@ == b@),
{
    let c = str_cmp(a, b);
    proof {
        lemma_lex_cmp_equal_iff(a@, b@);
    }
    matches!(c, Ordering::Equal)
}


} // verus!
