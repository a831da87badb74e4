use vstd::prelude::*;

use crate::text::{
    decimal_text, digit_char, digits_of, integer_text, lemma_parse_digits_of, parse_decimal,
    push_char, push_digits,
};

verus! {

/// A native cell value as the decoder sees it: whether it is SQL NULL, and
/// the outcome of each decode attempt, in priority order (`None` when the
/// attempt failed), with the engine's name of its type for the fallback.
#[derive(Debug, Clone)]
pub struct NativeValue {
    pub is_null: bool,
    pub text: Option<String>,
    pub integer: Option<i64>,
    /// A floating-point value as the engine renders it.
    pub real: Option<String>,
    pub boolean: Option<bool>,
    pub bytes: Option<Vec<u8>>,
    pub type_tag: String,
}

/// The items of a byte list, each in decimal, separated by `", "`.
pub open spec fn byte_items(b: Seq<u8>) -> Seq<char>
    decreases b.len(),
{
    if b.len() == 0 {
        Seq::empty()
    } else if b.len() == 1 {
        digits_of(b[0] as nat)
    } else {
        byte_items(b.drop_last()) + seq![',', ' '] + digits_of(b.last() as nat)
    }
}

/// A byte sequence rendered as a list literal: `[1, 2, 255]`.
pub open spec fn bytes_text(b: Seq<u8>) -> Seq<char> {
    seq!['['] + byte_items(b) + seq![']']
}

/// The placeholder for a value that no attempt could decode.
pub open spec fn unhandled_text(type_tag: Seq<char>) -> Seq<char> {
    "<unhandled type: "@ + type_tag + ">"@
}

/// The text of a cell: `NULL` for SQL NULL, else the first attempt that
/// succeeded (text, integer, floating point, boolean, bytes), else the
/// placeholder naming the type.
pub open spec fn decoded(v: NativeValue) -> Seq<char> {
    if v.is_null {
        "NULL"@
    } else if v.text is Some {
        v.text->0@
    } else if v.integer is Some {
        decimal_text(v.integer->0 as int)
    } else if v.real is Some {
        v.real->0@
    } else if v.boolean is Some {
        if v.boolean->0 {
            "true"@
        } else {
            "false"@
        }
    } else if v.bytes is Some {
        bytes_text(v.bytes->0@)
    } else {
        unhandled_text(v.type_tag@)
    }
}

/// Renders a byte sequence as a list literal.
pub fn bytes_to_string(b: &Vec<u8>) -> (r: String)
    ensures
        r@ == bytes_text(b@),
{
    let mut s = String::new();
    push_char(&mut s, '[');
    let mut i: usize = 0;
    while i < b.len()
        invariant
            i <= b.len(),
            s@ == seq!['['] + byte_items(b@.subrange(0, i as int)),
        decreases b.len() - i,
    {
        let ghost before = s@;
        let ghost prefix = b@.subrange(0, i as int);
        let ghost next = b@.subrange(0, i as int + 1);
        assert(next.drop_last() =~= prefix);
        if i > 0 {
            push_char(&mut s, ',');
            push_char(&mut s, ' ');
        }
        push_digits(&mut s, b[i] as u64);
        proof {
            if i == 0 {
                assert(prefix =~= Seq::<u8>::empty());
                assert(s@ =~= seq!['['] + byte_items(next));
            } else {
                assert(s@ =~= seq!['['] + byte_items(next));
            }
        }
        i = i + 1;
    }
    assert(b@.subrange(0, b.len() as int) =~= b@);
    push_char(&mut s, ']');
    s
}

/// Decodes one cell into its text. Total: every value gives a string.
pub fn value_to_string(v: &NativeValue) -> (r: String)
    ensures
        r@ == decoded(*v),
{
    if v.is_null {
        return String::from_str("NULL");
    }
    if let Some(t) = &v.text {
        return t.clone();
    }
    if let Some(i) = v.integer {
        return integer_text(i);
    }
    if let Some(t) = &v.real {
        return t.clone();
    }
    if let Some(b) = v.boolean {
        return if b {
            String::from_str("true")
        } else {
            String::from_str("false")
        };
    }
    if let Some(b) = &v.bytes {
        return bytes_to_string(b);
    }
    let mut s = String::from_str("<unhandled type: ");
    s.append(v.type_tag.as_str());
    s.append(">");
    s
}

/// SQL NULL always reads as `NULL`.
pub proof fn lemma_null_reads_null(v: NativeValue)
    requires
        v.is_null,
    ensures
        decoded(v) == "NULL"@,
{
}

/// A cell decided by its text attempt reads as exactly that text.
pub proof fn lemma_text_round_trip(v: NativeValue)
    requires
        !v.is_null,
        v.text is Some,
    ensures
        decoded(v) == v.text->0@,
{
}

/// A cell decided by its integer attempt reads back, as decimal, to the
/// same integer.
pub proof fn lemma_integer_round_trip(v: NativeValue)
    requires
        !v.is_null,
        v.text is None,
        v.integer is Some,
    ensures
        parse_decimal(decoded(v)) == v.integer->0 as int,
{
    crate::text::lemma_parse_decimal_text(v.integer->0 as int);
}

/// A cell decided by its boolean attempt reads `true` exactly when it holds.
pub proof fn lemma_boolean_round_trip(v: NativeValue)
    requires
        !v.is_null,
        v.text is None,
        v.integer is None,
        v.real is None,
        v.boolean is Some,
    ensures
        (decoded(v) == "true"@) == v.boolean->0,
        v.boolean->0 || decoded(v) == "false"@,
{
    reveal_strlit("true");
    reveal_strlit("false");
}

/// A value that no attempt decodes still reads as a non-empty placeholder.
pub proof fn lemma_unhandled_not_empty(v: NativeValue)
    requires
        !v.is_null,
        v.text is None,
        v.integer is None,
        v.real is None,
        v.boolean is None,
        v.bytes is None,
    ensures
        decoded(v).len() > 0,
        decoded(v) == unhandled_text(v.type_tag@),
{
    reveal_strlit(">");
}

/// Text holding neither of the characters that separate list items.
pub open spec fn no_separator(d: Seq<char>) -> bool {
    forall|k: int| 0 <= k < d.len() ==> d[k] != ',' && d[k] != ' '
}

proof fn lemma_digits_no_separator(n: nat)
    ensures
        digits_of(n).len() >= 1,
        no_separator(digits_of(n)),
    decreases n,
{
    assert(digit_char(n % 10) != ',' && digit_char(n % 10) != ' ');
    if n >= 10 {
        lemma_digits_no_separator(n / 10);
    }
}

proof fn lemma_byte_items_shape(b: Seq<u8>)
    ensures
        b.len() == 0 <==> byte_items(b).len() == 0,
        b.len() == 1 ==> no_separator(byte_items(b)),
    decreases b.len(),
{
    if b.len() == 1 {
        lemma_digits_no_separator(b[0] as nat);
    } else if b.len() > 1 {
        lemma_byte_items_shape(b.drop_last());
        lemma_digits_no_separator(b.last() as nat);
    }
}

/// Two ways of writing one text as `u, d` with separator-free tails agree.
proof fn lemma_last_item_unique(u1: Seq<char>, d1: Seq<char>, u2: Seq<char>, d2: Seq<char>)
    requires
        u1 + seq![',', ' '] + d1 == u2 + seq![',', ' '] + d2,
        no_separator(d1),
        no_separator(d2),
    ensures
        u1 == u2,
        d1 == d2,
{
    let x = u1 + seq![',', ' '] + d1;
    let y = u2 + seq![',', ' '] + d2;
    let l = x.len() as int;
    if d1.len() < d2.len() {
        if d2.len() == d1.len() + 1 {
            assert(x[l - d1.len() - 1] == ' ');
            assert(y[l - d1.len() - 1] == d2[0]);
        } else {
            assert(x[l - d1.len() - 2] == ',');
            assert(y[l - d1.len() - 2] == d2[d2.len() - d1.len() - 2]);
        }
    } else if d2.len() < d1.len() {
        if d1.len() == d2.len() + 1 {
            assert(y[l - d2.len() - 1] == ' ');
            assert(x[l - d2.len() - 1] == d1[0]);
        } else {
            assert(y[l - d2.len() - 2] == ',');
            assert(x[l - d2.len() - 2] == d1[d1.len() - d2.len() - 2]);
        }
    } else {
        assert(d1 =~= x.subrange(l - d1.len(), l));
        assert(d2 =~= y.subrange(l - d2.len(), l));
        assert(u1 =~= x.subrange(0, u1.len() as int));
        assert(u2 =~= y.subrange(0, u2.len() as int));
    }
}

/// Byte lists render to different texts: reading a rendering back gives
/// the bytes it came from.
pub proof fn lemma_bytes_text_injective(a: Seq<u8>, b: Seq<u8>)
    requires
        bytes_text(a) == bytes_text(b),
    ensures
        a == b,
{
    assert(byte_items(a) =~= bytes_text(a).subrange(1, bytes_text(a).len() - 1));
    assert(byte_items(b) =~= bytes_text(b).subrange(1, bytes_text(b).len() - 1));
    lemma_byte_items_injective(a, b);
}

proof fn lemma_byte_items_injective(a: Seq<u8>, b: Seq<u8>)
    requires
        byte_items(a) == byte_items(b),
    ensures
        a == b,
    decreases a.len(),
{
    lemma_byte_items_shape(a);
    lemma_byte_items_shape(b);
    if a.len() == 0 || b.len() == 0 {
        assert(a =~= b);
    } else if a.len() == 1 && b.len() == 1 {
        lemma_parse_digits_of(a[0] as nat);
        lemma_parse_digits_of(b[0] as nat);
        assert(a =~= b);
    } else if a.len() == 1 {
        let u = byte_items(b.drop_last());
        assert(byte_items(b)[u.len() as int] == ',');
    } else if b.len() == 1 {
        let u = byte_items(a.drop_last());
        assert(byte_items(a)[u.len() as int] == ',');
    } else {
        lemma_digits_no_separator(a.last() as nat);
        lemma_digits_no_separator(b.last() as nat);
        lemma_last_item_unique(
            byte_items(a.drop_last()),
            digits_of(a.last() as nat),
            byte_items(b.drop_last()),
            digits_of(b.last() as nat),
        );
        lemma_byte_items_injective(a.drop_last(), b.drop_last());
        lemma_parse_digits_of(a.last() as nat);
        lemma_parse_digits_of(b.last() as nat);
        assert(a =~= a.drop_last().push(a.last()));
        assert(b =~= b.drop_last().push(b.last()));
    }
}

} // verus!
